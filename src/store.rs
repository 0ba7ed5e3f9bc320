//! Locating and checking the on-disk stores of label layers and trees.
//!
//! A store lives whole at its data path, or is split over a fixed number of shard
//! files whose names put `-<index>` before the `.dat` suffix. What is on disk is
//! looked at by the caller; the functions here decide which files make up a store
//! and what the observations mean.

use vstd::prelude::*;

use crate::constants::{BINARY_ARITY, OCT_ARITY};
use crate::shape::SectorShape;
use crate::text::{contains, decimal, decimal_string, replace, replace_all, seq_contains};

verus! {

/// The location and identity of an on-disk store.
#[derive(Debug)]
pub struct StoreConfig {
    /// The directory that holds the store.
    pub path: String,
    /// The identifier from which the store's file name is made.
    pub id: String,
    /// The number of elements in the store, where known.
    pub size: Option<usize>,
    /// The number of tree rows not kept on disk.
    pub rows_to_discard: usize,
}

/// Why a cache does not hold what the next phase needs.
#[derive(Clone, Debug, PartialEq, Eq)]
pub enum CacheError {
    /// Neither the store's file nor all of its shards exist.
    MissingStore { path: String },
    /// A store file's length or layout does not match the store's size and arity.
    InconsistentStore { path: String },
    /// The store's size is not configured, so its consistency cannot be checked.
    StoreSizeUnset { path: String },
    /// The replica file does not exist.
    MissingReplica { path: String },
    /// The replica file exists but is empty.
    EmptyReplica { path: String },
}

/// The kinds of store that may be split over several files.
#[derive(Clone, Copy, Debug, PartialEq, Eq, Structural)]
pub enum StoreKind {
    TreeD,
    TreeC,
    TreeRLast,
}

pub open spec fn kind_name(k: StoreKind) -> Seq<char> {
    match k {
        StoreKind::TreeD => "tree-d"@,
        StoreKind::TreeC => "tree-c"@,
        StoreKind::TreeRLast => "tree-r-last"@,
    }
}

impl StoreKind {
    /// The name by which files of this kind are recognised.
    pub fn name(&self) -> (r: &'static str)
        ensures
            r@ == kind_name(*self),
    {
        match self {
            StoreKind::TreeD => "tree-d",
            StoreKind::TreeC => "tree-c",
            StoreKind::TreeRLast => "tree-r-last",
        }
    }
}

/// The kind of a shard path: the first of `tree-d`, `tree-c`, `tree-r-last` that the
/// path contains.
pub open spec fn spec_split_store_kind(p: Seq<char>) -> Option<StoreKind> {
    if seq_contains(p, kind_name(StoreKind::TreeD)) {
        Some(StoreKind::TreeD)
    } else if seq_contains(p, kind_name(StoreKind::TreeC)) {
        Some(StoreKind::TreeC)
    } else if seq_contains(p, kind_name(StoreKind::TreeRLast)) {
        Some(StoreKind::TreeRLast)
    } else {
        None
    }
}

/// The path of a store with identifier `id` in directory `dir`, as the tree library
/// names it.
pub uninterp spec fn store_data_path(dir: Seq<char>, id: Seq<char>) -> Seq<char>;

/// Relies on merkletree's `StoreConfig::data_path`, which joins the directory and a
/// file name made from the identifier; the result depends on its arguments alone.
#[verifier::external_body]
fn merkle_data_path(dir: &str, id: &str) -> (r: String)
    ensures
        r@ == store_data_path(dir@, id@),
{
    merkletree::store::StoreConfig::data_path(std::path::Path::new(dir), id).to_string_lossy().into_owned()
}

/// The suffix that shard `i` puts in place of `.dat`.
pub open spec fn shard_suffix(i: nat) -> Seq<char> {
    "-"@ + decimal(i) + ".dat"@
}

/// The path of shard `i` of the store whose whole path is `orig`.
pub open spec fn spec_split_store_path(orig: Seq<char>, i: nat) -> Seq<char> {
    replace_all(orig, ".dat"@, shard_suffix(i))
}

/// The identifier of shard `i` of a store of kind `k`.
pub open spec fn shard_id(k: StoreKind, i: nat) -> Seq<char> {
    kind_name(k) + "-"@ + decimal(i)
}

/// The identifiers of the shards, among the first `n`, that exist (`present`) and
/// whose path names a known kind, in index order.
pub open spec fn spec_shard_ids(orig: Seq<char>, present: Seq<bool>, n: nat) -> Seq<Seq<char>>
    decreases n,
{
    if n == 0 {
        seq![]
    } else {
        let prev = spec_shard_ids(orig, present, (n - 1) as nat);
        let i = (n - 1) as nat;
        let kind = spec_split_store_kind(spec_split_store_path(orig, i));
        if present[i as int] && kind is Some {
            prev.push(shard_id(kind.unwrap(), i))
        } else {
            prev
        }
    }
}

impl StoreConfig {
    /// The path of this store's whole file.
    pub open spec fn spec_data_path(&self) -> Seq<char> {
        store_data_path(self.path@, self.id@)
    }

    /// A config in `path` with identifier `id` and no size.
    pub fn new(path: String, id: String, rows_to_discard: usize) -> (r: StoreConfig)
        ensures
            r.path == path,
            r.id == id,
            r.size is None,
            r.rows_to_discard == rows_to_discard,
    {
        StoreConfig { path, id, size: None, rows_to_discard }
    }

    /// A config in the same place as `config`, with identifier `id`, and with `size` if
    /// it is given, else the size of `config`.
    pub fn from_config(config: &StoreConfig, id: String, size: Option<usize>) -> (r: StoreConfig)
        ensures
            r.path == config.path,
            r.id == id,
            r.size == (if size is Some {
                size
            } else {
                config.size
            }),
            r.rows_to_discard == config.rows_to_discard,
    {
        let val = match size {
            Some(s) => Some(s),
            None => config.size,
        };
        StoreConfig { path: config.path.clone(), id, size: val, rows_to_discard: config.rows_to_discard }
    }

    /// The path of this store's whole file.
    pub fn data_path(&self) -> (r: String)
        ensures
            r@ == self.spec_data_path(),
    {
        merkle_data_path(self.path.as_str(), self.id.as_str())
    }
}

/// The path of shard `index` of the store whose whole path is `store_path`: every
/// `.dat` becomes `-<index>.dat`.
pub fn split_store_path(store_path: &str, index: usize) -> (r: String)
    ensures
        r@ == spec_split_store_path(store_path@, index as nat),
{
    let mut suffix = String::from_str("-");
    let digits = decimal_string(index as u64);
    suffix.append(digits.as_str());
    suffix.append(".dat");
    proof {
        reveal_strlit("-");
        reveal_strlit(".dat");
    }
    assert(suffix@ == shard_suffix(index as nat));
    replace(store_path, ".dat", suffix.as_str())
}

/// The kind of store that a shard path belongs to, if any.
pub fn split_store_kind(path: &str) -> (r: Option<StoreKind>)
    ensures
        r == spec_split_store_kind(path@),
{
    if contains(path, StoreKind::TreeD.name()) {
        Some(StoreKind::TreeD)
    } else if contains(path, StoreKind::TreeC.name()) {
        Some(StoreKind::TreeC)
    } else if contains(path, StoreKind::TreeRLast.name()) {
        Some(StoreKind::TreeRLast)
    } else {
        None
    }
}

/// The configs of the shards of a split store.
///
/// `present[i]` tells whether the file at `split_store_path(config.data_path(), i)`
/// exists; `present.len()` is the number of shards the store must have. Each shard that
/// exists and whose path names a known kind gets a config with identifier
/// `<kind>-<i>` in the directory of `config`. Fails with `MissingStore` unless every
/// shard is found, and with `StoreSizeUnset` if `config` has no size.
pub fn split_store_configs(config: &StoreConfig, present: &Vec<bool>) -> (r: Result<
    Vec<StoreConfig>,
    CacheError,
>)
    ensures
        ({
            let orig = config.spec_data_path();
            let ids = spec_shard_ids(orig, present@, present@.len());
            &&& r is Ok <==> ids.len() == present@.len() && config.size is Some
            &&& r is Ok ==> {
                let v = r->Ok_0;
                &&& v@.len() == ids.len()
                &&& forall|j: int|
                    0 <= j < v@.len() ==> {
                        &&& (#[trigger] v@[j]).id@ == ids[j]
                        &&& v@[j].path == config.path
                        &&& v@[j].size == config.size
                        &&& v@[j].rows_to_discard == config.rows_to_discard
                    }
            }
            &&& ids.len() != present@.len() ==> r is Err && r->Err_0 is MissingStore
                && r->Err_0->MissingStore_path@ == orig
            &&& (ids.len() == present@.len() && config.size is None) ==> r
                is Err && r->Err_0 is StoreSizeUnset && r->Err_0->StoreSizeUnset_path@ == orig
        }),
{
    let orig = config.data_path();
    let mut configs: Vec<StoreConfig> = Vec::new();
    let mut i: usize = 0;
    while i < present.len()
        invariant
            i <= present@.len(),
            orig@ == config.spec_data_path(),
            configs@.len() == spec_shard_ids(orig@, present@, i as nat).len(),
            forall|j: int|
                0 <= j < configs@.len() ==> {
                    &&& (#[trigger] configs@[j]).id@ == spec_shard_ids(orig@, present@, i as nat)[j]
                    &&& configs@[j].path == config.path
                    &&& configs@[j].size == config.size
                    &&& configs@[j].rows_to_discard == config.rows_to_discard
                },
        decreases present@.len() - i,
    {
        if present[i] {
            let cur = split_store_path(orig.as_str(), i);
            match split_store_kind(cur.as_str()) {
                Some(kind) => {
                    let mut id = String::from_str(kind.name());
                    id.append("-");
                    let digits = decimal_string(i as u64);
                    id.append(digits.as_str());
                    proof {
                        reveal_strlit("-");
                    }
                    assert(id@ == shard_id(kind, i as nat));
                    configs.push(StoreConfig::from_config(config, id, None));
                },
                None => {},
            }
        }
        i = i + 1;
    }
    if configs.len() != present.len() {
        return Err(CacheError::MissingStore { path: orig });
    }
    if config.size.is_none() {
        return Err(CacheError::StoreSizeUnset { path: orig });
    }
    Ok(configs)
}

/// The stores whose consistency must be checked for `config`.
///
/// Where the store's whole file exists (`whole_exists`), that is the store itself;
/// else it is the shards that `split_store_configs` finds from `present`. Fails with
/// `StoreSizeUnset` if `config` has no size.
pub fn stores_to_check(config: &StoreConfig, whole_exists: bool, present: &Vec<bool>) -> (r:
    Result<Vec<StoreConfig>, CacheError>)
    ensures
        whole_exists ==> (r is Ok <==> config.size is Some),
        whole_exists && config.size is None ==> r is Err && r->Err_0 is StoreSizeUnset
            && r->Err_0->StoreSizeUnset_path@ == config.spec_data_path(),
        whole_exists && r is Ok ==> r->Ok_0@.len() == 1 && r->Ok_0@[0].path == config.path
            && r->Ok_0@[0].id == config.id && r->Ok_0@[0].size == config.size
            && r->Ok_0@[0].rows_to_discard == config.rows_to_discard,
        !whole_exists ==> {
            let ids = spec_shard_ids(config.spec_data_path(), present@, present@.len());
            &&& r is Ok <==> ids.len() == present@.len() && config.size is Some
            &&& r is Ok ==> r->Ok_0@.len() == ids.len() && forall|j: int|
                0 <= j < ids.len() ==> (#[trigger] r->Ok_0@[j]).id@ == ids[j]
                    && r->Ok_0@[j].path == config.path && r->Ok_0@[j].size == config.size
            &&& ids.len() != present@.len() ==> r is Err && r->Err_0 is MissingStore
        },
{
    if whole_exists {
        if config.size.is_none() {
            return Err(CacheError::StoreSizeUnset { path: config.data_path() });
        }
        let whole = StoreConfig::from_config(config, config.id.clone(), None);
        Ok(vec![whole])
    } else {
        split_store_configs(config, present)
    }
}

/// Turns the result of a consistency check of `store` into the store check's verdict.
pub fn require_consistent(store: &StoreConfig, consistent: bool) -> (r: Result<(), CacheError>)
    ensures
        r is Ok <==> consistent,
        r is Err ==> r->Err_0 is InconsistentStore && r->Err_0->InconsistentStore_path@
            == store.spec_data_path(),
{
    if consistent {
        Ok(())
    } else {
        Err(CacheError::InconsistentStore { path: store.data_path() })
    }
}

/// How one tree store is checked: the arity of its tree, the number of files it is
/// split into when not whole, and whether it is a level-cache store (only some rows
/// kept on disk).
#[derive(Clone, Copy, Debug, PartialEq, Eq, Structural)]
pub struct StoreCheck {
    pub arity: usize,
    pub required_shards: usize,
    pub level_cache: bool,
}

/// The check of the data tree (tree_d) of a sector of `shape`: a binary tree split
/// like the replica tree.
pub fn tree_d_check(shape: SectorShape) -> (r: StoreCheck)
    ensures
        r == (StoreCheck {
            arity: 2,
            required_shards: shape.spec_base_tree_count(),
            level_cache: false,
        }),
{
    StoreCheck { arity: BINARY_ARITY, required_shards: shape.base_tree_count(), level_cache: false }
}

/// The check of the column tree (tree_c) of a sector of `shape`: an octal tree split
/// like the replica tree.
pub fn tree_c_check(shape: SectorShape) -> (r: StoreCheck)
    ensures
        r == (StoreCheck {
            arity: 8,
            required_shards: shape.spec_base_tree_count(),
            level_cache: false,
        }),
{
    StoreCheck { arity: OCT_ARITY, required_shards: shape.base_tree_count(), level_cache: false }
}

/// The check of the replica tree (tree_r_last): an octal level-cache store, checked as
/// a single octal tree.
pub fn tree_r_last_check() -> (r: StoreCheck)
    ensures
        r == (StoreCheck { arity: 8, required_shards: 1, level_cache: true }),
{
    StoreCheck {
        arity: OCT_ARITY,
        required_shards: SectorShape::Base.base_tree_count(),
        level_cache: true,
    }
}

/// Checks that the replica at `replica_path` exists, before pre-commit phase 2.
pub fn validate_replica_exists(replica_path: &str, exists: bool) -> (r: Result<(), CacheError>)
    ensures
        r is Ok <==> exists,
        r is Err ==> r->Err_0 is MissingReplica && r->Err_0->MissingReplica_path@ == replica_path@,
{
    if !exists {
        return Err(CacheError::MissingReplica { path: String::from_str(replica_path) });
    }
    Ok(())
}

/// Checks that the replica at `replica_path` exists and is not empty, before commit;
/// `len` is its length in bytes where it exists.
pub fn validate_replica_for_commit(replica_path: &str, exists: bool, len: u64) -> (r: Result<
    (),
    CacheError,
>)
    ensures
        r is Ok <==> exists && len > 0,
        !exists ==> r is Err && r->Err_0 is MissingReplica && r->Err_0->MissingReplica_path@
            == replica_path@,
        exists && len == 0 ==> r is Err && r->Err_0 is EmptyReplica
            && r->Err_0->EmptyReplica_path@ == replica_path@,
{
    validate_replica_exists(replica_path, exists)?;
    if len == 0 {
        return Err(CacheError::EmptyReplica { path: String::from_str(replica_path) });
    }
    Ok(())
}

} // verus!
