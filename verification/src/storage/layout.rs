//! Where the agent keeps its files.

use vstd::prelude::*;
use crate::filesys::{spec_join_path, Dir, File};

verus! {

#[derive(Debug, Clone, PartialEq, Eq)]
pub struct StorageLayout {
    pub root: Dir,
}

/// The path of the default root directory.
pub open spec fn spec_default_root() -> Seq<char> {
    "/var/lib/miru"@
}

impl StorageLayout {
    pub fn new(root: Dir) -> (r: Self)
        ensures
            r.root == root,
    {
        Self { root }
    }

    /// The default root directory: `/var/lib/miru`.
    pub fn default_root_dir() -> (r: Dir)
        ensures
            r.path@ == spec_default_root(),
    {
        let root = Dir::new("/".to_string());
        let d = root.subdir("var").subdir("lib").subdir("miru");
        proof {
            reveal_strlit("/");
            reveal_strlit("var");
            reveal_strlit("lib");
            reveal_strlit("miru");
            reveal_strlit("/var/lib/miru");
            assert(d.path@ =~= spec_default_root());
        }
        d
    }

    /// The layout of the authentication files: the directory `auth`.
    pub fn auth_dir(&self) -> (r: AuthLayout)
        ensures
            r.root.path@ == spec_join_path(self.root.path@, "auth"@),
    {
        AuthLayout::new(self.root.subdir("auth"))
    }

    /// The agent's record: `agent.json`.
    pub fn agent_file(&self) -> (r: File)
        ensures
            r.path@ == spec_join_path(self.root.path@, "agent.json"@),
    {
        self.root.file("agent.json")
    }

    /// The caches: the directory `cache`.
    pub fn caches_dir(&self) -> (r: Dir)
        ensures
            r.path@ == spec_join_path(self.root.path@, "cache"@),
    {
        self.root.subdir("cache")
    }

    /// The config schema caches: `cache/config_schemas`.
    pub fn config_schema_caches(&self) -> (r: Dir)
        ensures
            r.path@ == spec_join_path(spec_join_path(self.root.path@, "cache"@), "config_schemas"@),
    {
        self.caches_dir().subdir("config_schemas")
    }

    /// The cache of schema digests: `cache/config_schemas/digests.json`.
    pub fn config_schema_digest_cache(&self) -> (r: File)
        ensures
            r.path@ == spec_join_path(
                spec_join_path(spec_join_path(self.root.path@, "cache"@), "config_schemas"@),
                "digests.json"@,
            ),
    {
        self.config_schema_caches().file("digests.json")
    }

    /// The cache of schemas: `cache/config_schemas/metadata.json`.
    pub fn config_schema_cache(&self) -> (r: File)
        ensures
            r.path@ == spec_join_path(
                spec_join_path(spec_join_path(self.root.path@, "cache"@), "config_schemas"@),
                "metadata.json"@,
            ),
    {
        self.config_schema_caches().file("metadata.json")
    }

    /// The config instance caches: `cache/config_instances`.
    pub fn config_instance_caches(&self) -> (r: Dir)
        ensures
            r.path@ == spec_join_path(spec_join_path(self.root.path@, "cache"@), "config_instances"@),
    {
        self.caches_dir().subdir("config_instances")
    }

    /// The cache of config instances: `cache/config_instances/metadata.json`.
    pub fn config_instance_metadata_cache(&self) -> (r: File)
        ensures
            r.path@ == spec_join_path(
                spec_join_path(spec_join_path(self.root.path@, "cache"@), "config_instances"@),
                "metadata.json"@,
            ),
    {
        self.config_instance_caches().file("metadata.json")
    }

    /// The cache of config instance data: the directory `cache/config_instances/instances`.
    pub fn config_instance_data_cache(&self) -> (r: Dir)
        ensures
            r.path@ == spec_join_path(
                spec_join_path(spec_join_path(self.root.path@, "cache"@), "config_instances"@),
                "instances"@,
            ),
    {
        self.config_instance_caches().subdir("instances")
    }
}

impl Default for StorageLayout {
    fn default() -> (r: Self)
        ensures
            r.root.path@ == spec_default_root(),
    {
        Self::new(Self::default_root_dir())
    }
}

#[derive(Debug, Clone, PartialEq, Eq)]
pub struct AuthLayout {
    pub root: Dir,
}

impl AuthLayout {
    pub fn new(root: Dir) -> (r: Self)
        ensures
            r.root == root,
    {
        Self { root }
    }

    pub fn private_key_file(&self) -> (r: File)
        ensures
            r.path@ == spec_join_path(self.root.path@, "private_key.pem"@),
    {
        self.root.file("private_key.pem")
    }

    pub fn public_key_file(&self) -> (r: File)
        ensures
            r.path@ == spec_join_path(self.root.path@, "public_key.pem"@),
    {
        self.root.file("public_key.pem")
    }

    pub fn token_file(&self) -> (r: File)
        ensures
            r.path@ == spec_join_path(self.root.path@, "token.json"@),
    {
        self.root.file("token.json")
    }
}

} // verus!
