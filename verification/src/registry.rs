//! The registry index: the manifest and index-record shapes, the derivation
//! of a record from a manifest and a checksum, the record's persisted JSON
//! line, the sharded path of a package's index file, the append semantics of
//! one publish, and the commit and push decisions.

use vstd::prelude::*;
use vstd::string::StrSliceExecFns;
use vstd::string::StringExecFns;
use crate::checksum::{sha256_hex, sha256_hex_of};
use crate::errors::PublishError;
use crate::json::{append_json_bool, append_json_opt_string, append_json_str_array,
    append_json_str_map, append_json_string, spec_json_bool, spec_json_opt_string,
    spec_json_str_array, spec_json_str_map, spec_json_string};
use crate::strutil::{clone_opt_string, clone_string_vec, lower_of, lowercase};

verus! {

/// The publisher-supplied metadata for one package version, as decoded from
/// the upload's manifest document. Ephemeral: it lives for one publish call.
/// The feature and badge maps are held as pairs in insertion order, keys
/// expected unique.
pub struct CargoManifest {
    pub name: String,
    pub vers: String,
    pub deps: Vec<CargoManifestDependency>,
    pub features: Vec<(String, Vec<String>)>,
    pub authors: Vec<String>,
    pub description: Option<String>,
    pub documentation: Option<String>,
    pub homepage: Option<String>,
    pub readme: Option<String>,
    pub keywords: Vec<String>,
    pub categories: Vec<String>,
    pub license: Option<String>,
    pub license_file: Option<String>,
    pub repository: Option<String>,
    pub badges: Vec<(String, Vec<(String, String)>)>,
}

/// One dependency as the publisher declares it.
pub struct CargoManifestDependency {
    pub optional: bool,
    pub default_features: bool,
    pub name: String,
    pub features: Vec<String>,
    pub version_req: String,
    pub target: Option<String>,
    pub kind: String,
    pub registry: Option<String>,
}

/// The persisted record for one published version: one JSON line in the
/// package's shard file.
pub struct RegistryIndexEntry {
    pub name: String,
    pub vers: String,
    pub deps: Vec<RegistryIndexDependency>,
    pub cksum: String,
    pub features: Vec<(String, Vec<String>)>,
    pub yanked: bool,
}

/// A dependency as persisted in an index record, derived one-to-one from a
/// manifest dependency; the version requirement is stored as `vers`.
pub struct RegistryIndexDependency {
    pub name: String,
    pub vers: String,
    pub registry: Option<String>,
    pub features: Vec<String>,
    pub optional: bool,
    pub default_features: bool,
    pub target: Option<String>,
    pub kind: String,
}

/// The view of an optional string.
pub open spec fn opt_view(x: Option<String>) -> Option<Seq<char>> {
    match x {
        Some(s) => Some(s@),
        None => None,
    }
}

/// The character-level view of a feature map: each pair's key and list.
pub open spec fn features_view(fs: Seq<(String, Vec<String>)>) -> Seq<(Seq<char>, Seq<Seq<char>>)> {
    Seq::new(fs.len(), |i: int| (fs[i].0@, fs[i].1.deep_view()))
}

/// An index dependency carries exactly the fields of a manifest dependency,
/// with the version requirement under `vers`.
pub open spec fn dep_matches(r: RegistryIndexDependency, d: CargoManifestDependency) -> bool {
    &&& r.name@ == d.name@
    &&& r.vers@ == d.version_req@
    &&& opt_view(r.registry) == opt_view(d.registry)
    &&& r.features.deep_view() == d.features.deep_view()
    &&& r.optional == d.optional
    &&& r.default_features == d.default_features
    &&& opt_view(r.target) == opt_view(d.target)
    &&& r.kind@ == d.kind@
}

/// An index entry is the canonical record of a manifest and a checksum:
/// name, version and features copied, each dependency carried over, the
/// checksum stored, and the yanked flag newly false.
pub open spec fn entry_of_manifest(e: RegistryIndexEntry, m: CargoManifest, cksum: Seq<char>) -> bool {
    &&& e.name@ == m.name@
    &&& e.vers@ == m.vers@
    &&& e.cksum@ == cksum
    &&& e.yanked == false
    &&& e.deps@.len() == m.deps@.len()
    &&& forall|i: int| 0 <= i < e.deps@.len() ==> dep_matches(#[trigger] e.deps@[i], m.deps@[i])
    &&& features_view(e.features@) == features_view(m.features@)
}

/// Copies a feature map, preserving keys, lists and their order.
fn clone_features(fs: &Vec<(String, Vec<String>)>) -> (r: Vec<(String, Vec<String>)>)
    ensures
        features_view(r@) == features_view(fs@),
{
    let mut r: Vec<(String, Vec<String>)> = Vec::new();
    let n = fs.len();
    let mut i: usize = 0;
    while i < n
        invariant
            n == fs@.len(),
            i <= n,
            r@.len() == i,
            features_view(r@) == features_view(fs@.take(i as int)),
        decreases n - i,
    {
        let key = fs[i].0.clone();
        let list = clone_string_vec(&fs[i].1);
        let ghost prev = r@;
        r.push((key, list));
        proof {
            assert forall|j: int| 0 <= j < r@.len() implies #[trigger] features_view(r@)[j]
                == features_view(fs@.take(i + 1))[j] by {
                assert(fs@.take(i + 1)[j] == fs@[j]);
                if j < i {
                    assert(r@[j] == prev[j]);
                    assert(features_view(prev)[j] == features_view(fs@.take(i as int))[j]);
                    assert(fs@.take(i as int)[j] == fs@[j]);
                } else {
                    assert(r@[j] == (key, list));
                    assert(list.deep_view() =~= fs@[j].1.deep_view());
                }
            }
            assert(features_view(r@) =~= features_view(fs@.take(i + 1)));
        }
        i += 1;
    }
    proof {
        assert(fs@.take(n as int) =~= fs@);
    }
    r
}

impl RegistryIndexDependency {
    /// Derives the persisted dependency record from a manifest dependency.
    pub fn new(dep: &CargoManifestDependency) -> (r: RegistryIndexDependency)
        ensures
            dep_matches(r, *dep),
    {
        RegistryIndexDependency {
            name: dep.name.clone(),
            vers: dep.version_req.clone(),
            registry: clone_opt_string(&dep.registry),
            features: clone_string_vec(&dep.features),
            optional: dep.optional,
            default_features: dep.default_features,
            target: clone_opt_string(&dep.target),
            kind: dep.kind.clone(),
        }
    }
}

impl RegistryIndexEntry {
    /// Builds the canonical index record for a manifest and an archive
    /// checksum. Total over any manifest; the yanked flag starts false.
    pub fn new(manifest: &CargoManifest, cksum: String) -> (r: RegistryIndexEntry)
        ensures
            entry_of_manifest(r, *manifest, cksum@),
    {
        let mut deps: Vec<RegistryIndexDependency> = Vec::new();
        let n = manifest.deps.len();
        let mut i: usize = 0;
        while i < n
            invariant
                n == manifest.deps@.len(),
                i <= n,
                deps@.len() == i,
                forall|j: int|
                    0 <= j < i ==> dep_matches(#[trigger] deps@[j], manifest.deps@[j]),
            decreases n - i,
        {
            deps.push(RegistryIndexDependency::new(&manifest.deps[i]));
            i += 1;
        }
        RegistryIndexEntry {
            name: manifest.name.clone(),
            vers: manifest.vers.clone(),
            deps,
            cksum,
            features: clone_features(&manifest.features),
            yanked: false,
        }
    }
}

/// The JSON object for one persisted dependency, fields in record order.
pub open spec fn spec_dep_json(d: RegistryIndexDependency) -> Seq<char> {
    "{\"name\":"@ + spec_json_string(d.name@) + ",\"vers\":"@ + spec_json_string(d.vers@)
        + ",\"registry\":"@ + spec_json_opt_string(d.registry) + ",\"features\":"@
        + spec_json_str_array(d.features@) + ",\"optional\":"@ + spec_json_bool(d.optional)
        + ",\"default_features\":"@ + spec_json_bool(d.default_features) + ",\"target\":"@
        + spec_json_opt_string(d.target) + ",\"kind\":"@ + spec_json_string(d.kind@) + "}"@
}

/// The comma-joined dependency objects of an entry.
pub open spec fn spec_join_deps(ds: Seq<RegistryIndexDependency>) -> Seq<char>
    decreases ds.len(),
{
    if ds.len() == 0 {
        Seq::empty()
    } else if ds.len() == 1 {
        spec_dep_json(ds[0])
    } else {
        spec_join_deps(ds.drop_last()) + ","@ + spec_dep_json(ds.last())
    }
}

/// The persisted JSON line of an index entry (without the trailing newline),
/// fields in record order.
pub open spec fn spec_entry_json(e: RegistryIndexEntry) -> Seq<char> {
    "{\"name\":"@ + spec_json_string(e.name@) + ",\"vers\":"@ + spec_json_string(e.vers@)
        + ",\"deps\":["@ + spec_join_deps(e.deps@) + "],\"cksum\":"@ + spec_json_string(e.cksum@)
        + ",\"features\":"@ + spec_json_str_map(e.features@) + ",\"yanked\":"@ + spec_json_bool(
        e.yanked,
    ) + "}"@
}

/// Appends the JSON object of one dependency to `out`.
#[verifier::rlimit(60)]
fn append_dep_json(out: &mut String, d: &RegistryIndexDependency)
    ensures
        final(out)@ == old(out)@ + spec_dep_json(*d),
{
    out.append("{\"name\":");
    append_json_string(out, d.name.as_str());
    out.append(",\"vers\":");
    append_json_string(out, d.vers.as_str());
    out.append(",\"registry\":");
    append_json_opt_string(out, &d.registry);
    out.append(",\"features\":");
    append_json_str_array(out, &d.features);
    out.append(",\"optional\":");
    append_json_bool(out, d.optional);
    out.append(",\"default_features\":");
    append_json_bool(out, d.default_features);
    out.append(",\"target\":");
    append_json_opt_string(out, &d.target);
    out.append(",\"kind\":");
    append_json_string(out, d.kind.as_str());
    out.append("}");
    proof {
        assert(out@ =~= old(out)@ + spec_dep_json(*d));
    }
}

/// Serializes an index entry as its persisted JSON line, without the
/// trailing newline.
pub fn entry_json_line(e: &RegistryIndexEntry) -> (r: String)
    ensures
        r@ == spec_entry_json(*e),
{
    let mut out = String::new();
    out.append("{\"name\":");
    append_json_string(&mut out, e.name.as_str());
    out.append(",\"vers\":");
    append_json_string(&mut out, e.vers.as_str());
    out.append(",\"deps\":[");
    let ghost head = out@;
    let n = e.deps.len();
    let mut i: usize = 0;
    while i < n
        invariant
            n == e.deps@.len(),
            i <= n,
            out@ == head + spec_join_deps(e.deps@.take(i as int)),
        decreases n - i,
    {
        if i > 0 {
            out.append(",");
        }
        append_dep_json(&mut out, &e.deps[i]);
        proof {
            assert(e.deps@.take(i + 1).drop_last() =~= e.deps@.take(i as int));
            assert(e.deps@.take(i + 1).last() == e.deps@[i as int]);
            assert(out@ =~= head + spec_join_deps(e.deps@.take(i + 1)));
        }
        i += 1;
    }
    proof {
        assert(e.deps@.take(n as int) =~= e.deps@);
    }
    out.append("],\"cksum\":");
    append_json_string(&mut out, e.cksum.as_str());
    out.append(",\"features\":");
    append_json_str_map(&mut out, &e.features);
    out.append(",\"yanked\":");
    append_json_bool(&mut out, e.yanked);
    out.append("}");
    proof {
        assert(out@ =~= spec_entry_json(*e));
    }
    out
}

/// The shard path of an already-lowercased package name, relative to the
/// index working directory: length 1 under `1/`, length 2 under `2/`,
/// length 3 under `3/<first>/`, longer names under
/// `<first two>/<next two>/`.
pub open spec fn spec_shard_path(name: Seq<char>) -> Seq<char>
    recommends
        name.len() > 0,
{
    if name.len() == 1 {
        "1/"@ + name
    } else if name.len() == 2 {
        "2/"@ + name
    } else if name.len() == 3 {
        "3/"@ + name.take(1) + "/"@ + name
    } else {
        name.take(2) + "/"@ + name.subrange(2, 4) + "/"@ + name
    }
}

/// The shard path of a package name: the name is case-folded first, so two
/// names differing only by case share one shard file.
pub open spec fn spec_index_rel_path(name: Seq<char>) -> Seq<char> {
    spec_shard_path(lower_of(name))
}

/// Computes the shard path of a package name, relative to the index
/// working directory.
pub fn index_rel_path(name: &str) -> (r: String)
    requires
        name@.len() > 0,
    ensures
        r@ == spec_index_rel_path(name@),
{
    let low = lowercase(name);
    let n = low.as_str().unicode_len();
    let mut r = String::new();
    if n == 1 {
        r.append("1/");
        r.append(low.as_str());
    } else if n == 2 {
        r.append("2/");
        r.append(low.as_str());
    } else if n == 3 {
        r.append("3/");
        r.append(low.as_str().substring_char(0, 1));
        r.append("/");
        r.append(low.as_str());
    } else {
        r.append(low.as_str().substring_char(0, 2));
        r.append("/");
        r.append(low.as_str().substring_char(2, 4));
        r.append("/");
        r.append(low.as_str());
    }
    proof {
        assert(low@.take(1) =~= low@.subrange(0, 1));
        assert(low@.take(2) =~= low@.subrange(0, 2));
        assert(r@ =~= spec_index_rel_path(name@));
    }
    r
}

/// Sharding is insensitive to anything the case folding removes: two names
/// with the same lowercase form map to the same shard file.
pub proof fn lemma_shard_case_insensitive(a: Seq<char>, b: Seq<char>)
    requires
        lower_of(a) == lower_of(b),
    ensures
        spec_index_rel_path(a) == spec_index_rel_path(b),
{
}

/// The length of a lowercased name's shard path.
spec fn shard_len(n: int) -> int {
    if n == 1 {
        3
    } else if n == 2 {
        4
    } else if n == 3 {
        7
    } else {
        n + 6
    }
}

/// How many characters of a shard path precede the name itself.
spec fn shard_prefix_len(n: int) -> int {
    if n == 3 {
        4
    } else if n >= 4 {
        6
    } else {
        2
    }
}

/// A shard path has the length its class dictates and ends with the name.
proof fn lemma_shard_suffix(x: Seq<char>)
    requires
        x.len() > 0,
    ensures
        spec_shard_path(x).len() == shard_len(x.len() as int),
        x == spec_shard_path(x).subrange(
            shard_prefix_len(x.len() as int),
            shard_len(x.len() as int),
        ),
{
    reveal_strlit("1/");
    reveal_strlit("2/");
    reveal_strlit("3/");
    reveal_strlit("/");
    let p = spec_shard_path(x);
    let n = x.len() as int;
    if n == 1 {
        assert(x =~= p.subrange(2, 3));
    } else if n == 2 {
        assert(x =~= p.subrange(2, 4));
    } else if n == 3 {
        assert(x =~= p.subrange(4, 7));
    } else {
        assert(x =~= p.subrange(6, n + 6));
    }
}

/// Sharding is injective on lowercased names: two different names never
/// share a shard path.
pub proof fn lemma_shard_path_injective(a: Seq<char>, b: Seq<char>)
    requires
        a.len() > 0,
        b.len() > 0,
        spec_shard_path(a) == spec_shard_path(b),
    ensures
        a == b,
{
    lemma_shard_suffix(a);
    lemma_shard_suffix(b);
    assert(shard_len(a.len() as int) == shard_len(b.len() as int));
    assert(a.len() == b.len());
}

/// Two packages whose lowercased names differ always use distinct shard
/// files, so concurrent publishes of different packages touch different
/// files of the index tree.
pub proof fn lemma_distinct_packages_distinct_shards(a: Seq<char>, b: Seq<char>)
    requires
        lower_of(a).len() > 0,
        lower_of(b).len() > 0,
        lower_of(a) != lower_of(b),
    ensures
        spec_index_rel_path(a) != spec_index_rel_path(b),
{
    if spec_index_rel_path(a) == spec_index_rel_path(b) {
        lemma_shard_path_injective(lower_of(a), lower_of(b));
    }
}

/// The commit message recorded for one publish.
pub fn commit_message(name: &str, vers: &str) -> (r: String)
    ensures
        r@ == "Adding "@ + name@ + " "@ + vers@,
{
    let mut r = String::new();
    r.append("Adding ");
    r.append(name);
    r.append(" ");
    r.append(vers);
    proof {
        assert(r@ =~= "Adding "@ + name@ + " "@ + vers@);
    }
    r
}

/// A file lies under a directory when it extends it by a separator and a
/// non-empty remainder.
pub open spec fn has_dir_prefix(file: Seq<char>, dir: Seq<char>) -> bool {
    &&& file.len() > dir.len()
    &&& file.take(dir.len() as int) == dir
    &&& file[dir.len() as int] == '/'
}

/// The new content of a shard file after one publish: the previous content
/// (empty for a new file), then the record's JSON line, then one newline.
/// No separator is inserted before the new line beyond what the previous
/// content already ends with.
pub open spec fn spec_updated_index(prev: Seq<char>, e: RegistryIndexEntry) -> Seq<char> {
    prev + spec_entry_json(e) + "\n"@
}

/// Everything one publish contributes to the index, computed before any of
/// it touches disk: the record, its JSON line, the shard file (relative and
/// under the working directory) and the commit message.
pub struct AddCratePlan {
    pub entry: RegistryIndexEntry,
    pub entry_line: String,
    pub index_rel_path: String,
    pub index_file: String,
    pub commit_message: String,
}

/// The local working copy of the registry index repository: where it was
/// cloned from and where it lives. The clone itself is rebuilt from the
/// remote at process start; the remote is the durable system of record.
pub struct Registry {
    pub index_url: String,
    pub workdir: String,
}

impl Registry {
    /// Records the remote index to clone and the fixed working directory
    /// the clone replaces on every process start.
    pub fn new(registry_index: &str) -> (r: Registry)
        ensures
            r.index_url@ == registry_index@,
            r.workdir@ == "./repo"@,
    {
        Registry { index_url: String::from_str(registry_index), workdir: String::from_str("./repo") }
    }

    /// The shard file of a package, under the working directory.
    pub fn index_file(&self, name: &str) -> (r: String)
        requires
            name@.len() > 0,
        ensures
            r@ == self.workdir@ + "/"@ + spec_index_rel_path(name@),
    {
        let rel = index_rel_path(name);
        let mut r = self.workdir.clone();
        r.append("/");
        r.append(rel.as_str());
        proof {
            assert(r@ =~= self.workdir@ + "/"@ + spec_index_rel_path(name@));
        }
        r
    }

    /// The shard file's content after appending one record: previous
    /// content (if the file existed), the JSON line, a trailing newline.
    pub fn update_crate_index(&self, prev: Option<&String>, entry: &RegistryIndexEntry) -> (r:
        String)
        ensures
            r@ == spec_updated_index(
                match prev {
                    Some(p) => p@,
                    None => Seq::<char>::empty(),
                },
                *entry,
            ),
    {
        let mut r = match prev {
            Some(p) => (*p).clone(),
            None => String::new(),
        };
        let line = entry_json_line(entry);
        r.append(line.as_str());
        r.append("\n");
        proof {
            assert(r@ =~= spec_updated_index(
                match prev {
                    Some(p) => p@,
                    None => Seq::<char>::empty(),
                },
                *entry,
            ));
        }
        r
    }

    /// The path a commit stages: the shard file made relative to the
    /// working directory, or nothing if the file does not lie under it.
    pub fn strip_workdir_prefix(&self, index_file: &str) -> (r: Option<String>)
        ensures
            r is Some <==> has_dir_prefix(index_file@, self.workdir@),
            r matches Some(rel) ==> index_file@ == self.workdir@ + "/"@ + rel@,
    {
        let wn = self.workdir.as_str().unicode_len();
        let fn_len = index_file.unicode_len();
        if fn_len <= wn {
            return None;
        }
        let mut i: usize = 0;
        while i < wn
            invariant
                wn == self.workdir@.len(),
                fn_len == index_file@.len(),
                fn_len > wn,
                i <= wn,
                forall|j: int| 0 <= j < i ==> index_file@[j] == self.workdir@[j],
            decreases wn - i,
        {
            let c1 = index_file.get_char(i);
            let c2 = self.workdir.as_str().get_char(i);
            if c1 != c2 {
                proof {
                    if has_dir_prefix(index_file@, self.workdir@) {
                        assert(index_file@.take(wn as int) == self.workdir@);
                        assert(index_file@.take(wn as int)[i as int] == index_file@[i as int]);
                        assert(false);
                    }
                }
                return None;
            }
            i += 1;
        }
        let sep = index_file.get_char(wn);
        if sep != '/' {
            proof {
                assert(!has_dir_prefix(index_file@, self.workdir@));
            }
            return None;
        }
        let rel = index_file.substring_char(wn + 1, fn_len);
        proof {
            reveal_strlit("/");
            assert("/"@ =~= seq!['/']);
            assert(index_file@[wn as int] == '/');
            assert(index_file@.take(wn as int) =~= self.workdir@);
            assert(index_file@ =~= self.workdir@ + "/"@ + index_file@.subrange(wn + 1, fn_len as int));
        }
        Some(String::from_str(rel))
    }

    /// Derives everything one publish adds to the index: the checksum of
    /// the archive, the canonical record, its JSON line, the shard file and
    /// the commit message.
    pub fn add_crate(&self, manifest: &CargoManifest, crate_tar: &[u8]) -> (r: AddCratePlan)
        requires
            manifest.name@.len() > 0,
        ensures
            entry_of_manifest(r.entry, *manifest, sha256_hex_of(crate_tar@)),
            r.entry_line@ == spec_entry_json(r.entry),
            r.index_rel_path@ == spec_index_rel_path(manifest.name@),
            r.index_file@ == self.workdir@ + "/"@ + spec_index_rel_path(manifest.name@),
            r.commit_message@ == "Adding "@ + manifest.name@ + " "@ + manifest.vers@,
    {
        let cksum = sha256_hex(crate_tar);
        let entry = RegistryIndexEntry::new(manifest, cksum);
        let entry_line = entry_json_line(&entry);
        let rel = index_rel_path(entry.name.as_str());
        let mut file = self.workdir.clone();
        file.append("/");
        file.append(rel.as_str());
        let message = commit_message(manifest.name.as_str(), manifest.vers.as_str());
        proof {
            assert(file@ =~= self.workdir@ + "/"@ + spec_index_rel_path(manifest.name@));
        }
        AddCratePlan {
            entry,
            entry_line,
            index_rel_path: rel,
            index_file: file,
            commit_message: message,
        }
    }
}

/// Interprets the result of pushing the branch to the remote: success only
/// when the transport succeeded and the remote reported no ref-update
/// rejection; any rejection report and any transport failure surface as
/// `PushRejected`, since a local commit now exists that is not externally
/// visible.
pub fn push_outcome(transport_ok: bool, ref_status: Option<String>) -> (r: Result<
    (),
    PublishError,
>)
    ensures
        r is Ok <==> transport_ok && ref_status is None,
        r is Err ==> r == Err::<(), PublishError>(PublishError::PushRejected),
{
    if transport_ok {
        match ref_status {
            None => Ok(()),
            Some(_) => Err(PublishError::PushRejected),
        }
    } else {
        Err(PublishError::PushRejected)
    }
}

} // verus!
