//! The temp-file materialization cache.
//!
//! The native VMAF library loads a model from a filesystem path and then
//! looks for a companion file at that same path with `.model` appended.
//! This module lazily writes each embedded model (see [`crate::assets`])
//! to a freshly created private temporary directory, exactly once per
//! cache and model, and hands out the same primary path on every later
//! request. The temporary directory is removed when the cache entry is
//! dropped.
//!
//! Each named entry is materialized from its own payload: the `default`
//! entry holds the `default` bytes and the `4K` entry the `4K` bytes.
//! A failed materialization leaves the cache unchanged, so a later call
//! simply retries; a failure is never cached.

use vstd::prelude::*;
use vstd::string::StringExecFns;

use crate::assets::ModelName;
use crate::assets::get_asset;
use crate::assets::primary_payload_spec;
use crate::assets::secondary_payload_spec;

verus! {

/// The file name under which the named model's primary payload is
/// materialized. The native library derives the secondary file's path
/// from this name, so it is a fixed external contract.
pub open spec fn primary_filename_spec(name: ModelName) -> Seq<char> {
    match name {
        ModelName::Default => "vmaf_v0.6.1.pkl"@,
        ModelName::FourK => "vmaf_4k_v0.6.1.pkl"@,
    }
}

/// The suffix the native library appends to the primary path when it
/// looks for the secondary file.
pub open spec fn secondary_suffix_spec() -> Seq<char> {
    ".model"@
}

/// The file name under which the named model's primary payload is
/// materialized.
pub fn primary_filename(name: ModelName) -> (r: &'static str)
    ensures
        r@ == primary_filename_spec(name),
{
    match name {
        ModelName::Default => "vmaf_v0.6.1.pkl",
        ModelName::FourK => "vmaf_4k_v0.6.1.pkl",
    }
}

/// The path of the secondary file that the native library expects beside
/// a primary model file: the primary path with `.model` appended.
pub fn derive_secondary_path(primary: &str) -> (r: String)
    ensures
        r@ == primary@ + secondary_suffix_spec(),
{
    let mut s = primary.to_owned();
    s.append(".model");
    s
}

/// Joins a directory path and a file name with the path separator.
pub fn join_in_dir(dir: &str, name: &str) -> (r: String)
    ensures
        r@ == dir@ + "/"@ + name@,
{
    let mut s = dir.to_owned();
    s.append("/");
    s.append(name);
    s
}

#[verifier::external_type_specification]
#[verifier::external_body]
pub struct ExTempDir(tempfile::TempDir);

/// Relies on `tempfile::TempDir::new`: creates a fresh, exclusively
/// owned temporary directory, removed again when the value is dropped;
/// returns `Err` when the directory cannot be created.
#[verifier::external_body]
fn create_temp_dir() -> (r: Result<tempfile::TempDir, String>) {
    match tempfile::TempDir::new() {
        Ok(dir) => Ok(dir),
        Err(e) => Err(e.to_string()),
    }
}

/// Relies on `tempfile::TempDir::path`: returns the path of the
/// directory that the handle owns, converted lossily to a string (the
/// default temporary root is plain ASCII in practice).
#[verifier::external_body]
fn temp_dir_path(dir: &tempfile::TempDir) -> (r: String) {
    dir.path().to_string_lossy().into_owned()
}

/// Relies on `tempfile::NamedTempFile::new_in`,
/// `std::io::Write::write_all` and `tempfile::NamedTempFile::persist`:
/// after `Ok`, the file `<dir>/<name>` holds exactly `contents`.
#[verifier::external_body]
fn write_file_in_dir(dir: &tempfile::TempDir, name: &str, contents: &str) -> (r: Result<
    (),
    String,
>) {
    let mut file = match tempfile::NamedTempFile::new_in(dir.path()) {
        Ok(file) => file,
        Err(e) => return Err(e.to_string()),
    };
    if let Err(e) = std::io::Write::write_all(&mut file, contents.as_bytes()) {
        return Err(e.to_string());
    }
    match file.persist(dir.path().join(name)) {
        Ok(_) => Ok(()),
        Err(e) => Err(e.to_string()),
    }
}

/// Why a materialization failed: the temporary directory could not be
/// created, or one of the two files could not be written. Each variant
/// carries the model that failed and the underlying I/O error's text.
#[derive(Debug)]
pub enum MaterializeError {
    DirCreate(ModelName, String),
    FileWrite(ModelName, String),
}

/// The model whose materialization an error reports.
pub open spec fn failed_model_spec(e: MaterializeError) -> ModelName {
    match e {
        MaterializeError::DirCreate(name, _) => name,
        MaterializeError::FileWrite(name, _) => name,
    }
}

/// The underlying I/O error text an error carries.
pub open spec fn failed_detail_spec(e: MaterializeError) -> Seq<char> {
    match e {
        MaterializeError::DirCreate(_, detail) => detail@,
        MaterializeError::FileWrite(_, detail) => detail@,
    }
}

impl MaterializeError {
    /// The model whose materialization failed.
    pub fn model(&self) -> (r: ModelName)
        ensures
            r == failed_model_spec(*self),
    {
        match self {
            MaterializeError::DirCreate(name, _) => *name,
            MaterializeError::FileWrite(name, _) => *name,
        }
    }

    /// The underlying I/O error's text.
    pub fn detail(&self) -> (r: &String)
        ensures
            r@ == failed_detail_spec(*self),
    {
        match self {
            MaterializeError::DirCreate(_, detail) => detail,
            MaterializeError::FileWrite(_, detail) => detail,
        }
    }
}

/// A model written out to its own temporary directory. The value owns
/// the directory handle: dropping it removes the directory and both
/// files, and path lookups only ever hand out copies of the paths.
pub struct MaterializedModel {
    /// The handle owning the temporary directory; dropping it removes
    /// the directory and its contents.
    pub dir: tempfile::TempDir,
    /// The path of the owning temporary directory.
    pub dir_path: String,
    /// The path of the file holding the primary payload.
    pub primary_path: String,
    /// The path of the file holding the secondary payload: always
    /// `primary_path` with `.model` appended.
    pub secondary_path: String,
    /// The payload written to `primary_path`.
    pub primary_written: Ghost<Seq<char>>,
    /// The payload written to `secondary_path`.
    pub secondary_written: Ghost<Seq<char>>,
}

impl MaterializedModel {
    /// A well-formed materialization of the named model: the primary
    /// file sits in the owning directory under the model's canonical
    /// file name, the secondary path is the primary path with `.model`
    /// appended, and the payloads written are exactly the named model's
    /// embedded payloads.
    pub open spec fn wf(self, name: ModelName) -> bool {
        &&& self.primary_path@ == self.dir_path@ + "/"@ + primary_filename_spec(name)
        &&& self.secondary_path@ == self.primary_path@ + secondary_suffix_spec()
        &&& self.primary_written@ == primary_payload_spec(name)
        &&& self.secondary_written@ == secondary_payload_spec(name)
    }
}

/// Writes the named model's two payloads into a freshly created
/// temporary directory under the fixed naming convention and returns the
/// resulting handle. On any failure the directory handle is dropped,
/// which removes whatever was created, and nothing is cached.
fn materialize(name: ModelName) -> (r: Result<MaterializedModel, MaterializeError>)
    ensures
        (match r {
            Ok(m) => m.wf(name),
            Err(e) => failed_model_spec(e) == name,
        }),
{
    let dir = match create_temp_dir() {
        Ok(dir) => dir,
        Err(detail) => {
            return Err(MaterializeError::DirCreate(name, detail));
        },
    };
    let dir_path = temp_dir_path(&dir);
    let filename = primary_filename(name);
    let primary_path = join_in_dir(dir_path.as_str(), filename);
    let secondary_path = derive_secondary_path(primary_path.as_str());
    let (primary, secondary) = get_asset(name);
    match write_file_in_dir(&dir, filename, primary) {
        Ok(_) => {},
        Err(detail) => {
            return Err(MaterializeError::FileWrite(name, detail));
        },
    }
    let secondary_filename = derive_secondary_path(filename);
    match write_file_in_dir(&dir, secondary_filename.as_str(), secondary) {
        Ok(_) => {},
        Err(detail) => {
            return Err(MaterializeError::FileWrite(name, detail));
        },
    }
    Ok(
        MaterializedModel {
            dir,
            dir_path,
            primary_path,
            secondary_path,
            primary_written: Ghost(primary@),
            secondary_written: Ghost(secondary@),
        },
    )
}

/// The materialization cache: at most one materialized directory per
/// model. Entries can only be filled by [`ModelCache::get_model_path`],
/// never replaced, and are dropped (removing their directories) with the
/// cache.
pub struct ModelCache {
    /// The `default` model's entry, if already materialized.
    pub def_entry: Option<MaterializedModel>,
    /// The `4K` model's entry, if already materialized.
    pub four_k_entry: Option<MaterializedModel>,
}

/// The model name that is not `name`.
pub open spec fn other_model(name: ModelName) -> ModelName {
    match name {
        ModelName::Default => ModelName::FourK,
        ModelName::FourK => ModelName::Default,
    }
}

/// How one call of [`ModelCache::get_model_path`] for `name` relates the
/// cache before (`pre`) and after (`post`) the call to its result `r`:
/// the other model's entry is untouched; a request for an already
/// materialized model succeeds, changes nothing and returns the cached
/// path; a successful request leaves a well-formed entry whose primary
/// path is returned; and a failed request leaves the cache exactly as it
/// was, so that a later call retries.
pub open spec fn serves_request(
    pre: ModelCache,
    post: ModelCache,
    name: ModelName,
    r: Result<String, MaterializeError>,
) -> bool {
    &&& post.wf()
    &&& post.entry_spec(other_model(name)) == pre.entry_spec(other_model(name))
    &&& (pre.entry_spec(name) is Some ==> r is Ok && post == pre)
    &&& (match r {
        Ok(p) => post.entry_spec(name) matches Some(m) && p@ == m.primary_path@,
        Err(e) => post == pre && pre.entry_spec(name) is None && failed_model_spec(e) == name,
    })
}

impl ModelCache {
    /// The entry for the named model.
    pub open spec fn entry_spec(self, name: ModelName) -> Option<MaterializedModel> {
        match name {
            ModelName::Default => self.def_entry,
            ModelName::FourK => self.four_k_entry,
        }
    }

    /// Every present entry is a well-formed materialization of the model
    /// it is keyed by.
    pub open spec fn wf(self) -> bool {
        &&& (self.def_entry matches Some(m) ==> m.wf(ModelName::Default))
        &&& (self.four_k_entry matches Some(m) ==> m.wf(ModelName::FourK))
    }

    /// An empty cache: nothing materialized yet.
    pub fn new() -> (r: ModelCache)
        ensures
            r.wf(),
            r.entry_spec(ModelName::Default) is None,
            r.entry_spec(ModelName::FourK) is None,
    {
        ModelCache { def_entry: None, four_k_entry: None }
    }

    /// Returns a filesystem path holding the named model's primary
    /// payload, materializing the model into a fresh private temporary
    /// directory on the first request and returning the recorded path,
    /// without touching the filesystem, on every later one.
    pub fn get_model_path(&mut self, name: ModelName) -> (r: Result<String, MaterializeError>)
        requires
            old(self).wf(),
        ensures
            serves_request(*old(self), *final(self), name, r),
    {
        match name {
            ModelName::Default => {
                match &self.def_entry {
                    Some(m) => {
                        return Ok(m.primary_path.clone());
                    },
                    None => {},
                }
                match materialize(ModelName::Default) {
                    Ok(m) => {
                        let p = m.primary_path.clone();
                        self.def_entry = Some(m);
                        Ok(p)
                    },
                    Err(e) => Err(e),
                }
            },
            ModelName::FourK => {
                match &self.four_k_entry {
                    Some(m) => {
                        return Ok(m.primary_path.clone());
                    },
                    None => {},
                }
                match materialize(ModelName::FourK) {
                    Ok(m) => {
                        let p = m.primary_path.clone();
                        self.four_k_entry = Some(m);
                        Ok(p)
                    },
                    Err(e) => Err(e),
                }
            },
        }
    }
}

/// Law: once a request for a model has succeeded, every later request
/// for that model succeeds, returns the very same path, and leaves the
/// cache as it was — however many requests, in whatever order for the
/// two models, come in between.
pub proof fn lemma_path_is_stable(
    c0: ModelCache,
    c1: ModelCache,
    c2: ModelCache,
    c3: ModelCache,
    name: ModelName,
    p1: String,
    r2: Result<String, MaterializeError>,
)
    requires
        serves_request(c0, c1, name, Ok(p1)),
        c2.entry_spec(name) == c1.entry_spec(name),
        serves_request(c2, c3, name, r2),
    ensures
        r2 matches Ok(p2) && p2@ == p1@,
        c3.entry_spec(name) == c1.entry_spec(name),
{
}

/// Law: materializations of the two models never collide. Whatever
/// directories the two materializations received, the four paths — each
/// model's primary and secondary path — are pairwise distinct, because
/// the canonical file names differ and the secondary suffix is fixed.
pub proof fn lemma_distinct_paths(m_def: MaterializedModel, m_4k: MaterializedModel)
    requires
        m_def.wf(ModelName::Default),
        m_4k.wf(ModelName::FourK),
    ensures
        m_def.primary_path@ != m_4k.primary_path@,
        m_def.secondary_path@ != m_4k.secondary_path@,
        m_def.primary_path@ != m_4k.secondary_path@,
        m_4k.primary_path@ != m_def.secondary_path@,
        m_def.primary_path@ != m_def.secondary_path@,
        m_4k.primary_path@ != m_4k.secondary_path@,
{
    reveal_strlit("vmaf_v0.6.1.pkl");
    reveal_strlit("vmaf_4k_v0.6.1.pkl");
    reveal_strlit("/");
    reveal_strlit(".model");
    let p1 = m_def.primary_path@;
    let p2 = m_4k.primary_path@;
    let s1 = m_def.secondary_path@;
    let s2 = m_4k.secondary_path@;
    assert(p1.len() == m_def.dir_path@.len() + 1 + 15);
    assert(p2.len() == m_4k.dir_path@.len() + 1 + 18);
    assert(s1.len() == p1.len() + 6);
    assert(s2.len() == p2.len() + 6);
    // The last fifteen characters of a primary path are determined by
    // its canonical file name, and the two names disagree there.
    if p1 == p2 {
        let n = p1.len() as int;
        assert(p1[n - 15] == "vmaf_v0.6.1.pkl"@[0]);
        assert(p2[n - 15] == "vmaf_4k_v0.6.1.pkl"@[3]);
        assert(false);
    }
    // Equal secondary paths would force the primary paths they extend
    // to agree character for character.
    if s1 == s2 {
        assert forall|i: int| 0 <= i < p1.len() implies p1[i] == p2[i] by {
            assert(s1[i] == p1[i]);
            assert(s2[i] == p2[i]);
        }
        assert(p1 =~= p2);
        assert(false);
    }
    // A primary path ends in `kl`, a secondary path in `el`.
    if p1 == s2 {
        let n = p1.len() as int;
        assert(p1[n - 2] == "vmaf_v0.6.1.pkl"@[13]);
        assert(s2[n - 2] == ".model"@[4]);
        assert(false);
    }
    if p2 == s1 {
        let n = p2.len() as int;
        assert(p2[n - 2] == "vmaf_4k_v0.6.1.pkl"@[16]);
        assert(s1[n - 2] == ".model"@[4]);
        assert(false);
    }
}

/// Returns the path of the materialized VMAF `default` model, writing it
/// to a fresh temporary directory on the cache's first `default` request
/// and returning the same path on every later one.
pub fn get_def_model_path(cache: &mut ModelCache) -> (r: Result<String, MaterializeError>)
    requires
        old(cache).wf(),
    ensures
        serves_request(*old(cache), *final(cache), ModelName::Default, r),
{
    cache.get_model_path(ModelName::Default)
}

/// Returns the path of the materialized VMAF `4K` model, writing it to a
/// fresh temporary directory on the cache's first `4K` request and
/// returning the same path on every later one.
pub fn get_4k_model_path(cache: &mut ModelCache) -> (r: Result<String, MaterializeError>)
    requires
        old(cache).wf(),
    ensures
        serves_request(*old(cache), *final(cache), ModelName::FourK, r),
{
    cache.get_model_path(ModelName::FourK)
}

} // verus!
