//! Model variants, install checks on file sizes, and the model folder manifest (file
//! entries sorted by name, SHA-256 fingerprints in lowercase hex).
use vstd::prelude::*;
use vstd::seq_lib::group_to_multiset_ensures;
use vstd::string::StringSliceAdditionalSpecFns;

use sha2::Digest;

use crate::text::{append_str, ends_with, ends_with_str, lower, lower_str, push_char, str_eq, to_owned_string, trim, trim_str};

verus! {

pub const MODEL_VARIANT_INT8: &'static str = "int8";

pub const MODEL_VARIANT_FP32: &'static str = "fp32";

pub const MODEL_VARIANT_INT8_SMOOTHQUANT: &'static str = "int8_smoothquant";

/// Files up to this size are hashed in full; larger ones get a size fingerprint.
pub const MANIFEST_FULL_HASH_MAX_BYTES: u64 = 4194304;

/// Parakeet TDT weight variants.
#[derive(PartialEq, Eq, Structural, Clone, Copy, Debug)]
pub enum ModelVariant {
    Int8,
    Fp32,
    Int8Smoothquant,
}

pub open spec fn variant_from(key: Seq<char>) -> Option<ModelVariant> {
    if key == "int8"@ {
        Some(ModelVariant::Int8)
    } else if key == "fp32"@ {
        Some(ModelVariant::Fp32)
    } else if key == "int8_smoothquant"@ {
        Some(ModelVariant::Int8Smoothquant)
    } else {
        None
    }
}

proof fn lemma_variant_names_distinct()
    ensures
        "int8"@ != "fp32"@,
        "int8"@ != "int8_smoothquant"@,
        "fp32"@ != "int8_smoothquant"@,
{
    reveal_strlit("int8");
    reveal_strlit("fp32");
    reveal_strlit("int8_smoothquant");
    assert("int8"@[0] != "fp32"@[0]);
    assert("int8"@.len() != "int8_smoothquant"@.len());
    assert("fp32"@[0] != "int8_smoothquant"@[0]);
}

impl ModelVariant {
    pub open spec fn name(self) -> Seq<char> {
        match self {
            ModelVariant::Int8 => "int8"@,
            ModelVariant::Fp32 => "fp32"@,
            ModelVariant::Int8Smoothquant => "int8_smoothquant"@,
        }
    }

    /// Parses a variant name, ignoring ASCII case and surrounding whitespace.
    pub fn parse(raw: &str) -> (r: Option<Self>)
        ensures
            r == variant_from(lower(trim(raw@))),
    {
        let t = trim_str(raw);
        let key = lower_str(t.as_str());
        let k = key.as_str();
        if str_eq(k, MODEL_VARIANT_INT8) {
            Some(ModelVariant::Int8)
        } else if str_eq(k, MODEL_VARIANT_FP32) {
            Some(ModelVariant::Fp32)
        } else if str_eq(k, MODEL_VARIANT_INT8_SMOOTHQUANT) {
            Some(ModelVariant::Int8Smoothquant)
        } else {
            proof {
                reveal_strlit("int8");
                reveal_strlit("fp32");
                reveal_strlit("int8_smoothquant");
            }
            None
        }
    }

    pub fn as_str(self) -> (r: &'static str)
        ensures
            r@ == self.name(),
            variant_from(r@) == Some(self),
    {
        proof {
            lemma_variant_names_distinct();
        }
        match self {
            ModelVariant::Int8 => MODEL_VARIANT_INT8,
            ModelVariant::Fp32 => MODEL_VARIANT_FP32,
            ModelVariant::Int8Smoothquant => MODEL_VARIANT_INT8_SMOOTHQUANT,
        }
    }

    /// Hugging Face repository hosting the variant's ONNX export.
    pub fn hf_repo(self) -> (r: &'static str)
        ensures
            r@ == match self {
                ModelVariant::Int8Smoothquant => "Olicorne/parakeet-tdt-0.6b-v3-smoothquant-onnx"@,
                _ => "istupakov/parakeet-tdt-0.6b-v3-onnx"@,
            },
    {
        match self {
            ModelVariant::Int8Smoothquant => "Olicorne/parakeet-tdt-0.6b-v3-smoothquant-onnx",
            _ => "istupakov/parakeet-tdt-0.6b-v3-onnx",
        }
    }

    /// Author of the export (the repository owner).
    pub fn source_author(self) -> (r: &'static str)
        ensures
            r@ == match self {
                ModelVariant::Int8Smoothquant => "Olicorne"@,
                _ => "istupakov"@,
            },
    {
        match self {
            ModelVariant::Int8Smoothquant => "Olicorne",
            _ => "istupakov",
        }
    }
}

/// Law: printing a variant and parsing it back gives the same variant.
pub proof fn law_variant_name_round_trips(v: ModelVariant)
    ensures
        variant_from(v.name()) == Some(v),
{
    lemma_variant_names_distinct();
}

pub struct ModelCatalogEntry {
    pub family: String,
    pub variant: String,
    pub installed: bool,
    pub size_mb: u32,
    pub active: bool,
    pub source_author: String,
}

pub struct ModelManifestFile {
    pub name: String,
    pub sha256: String,
    pub size_bytes: u64,
}

pub struct ModelManifest {
    pub family: String,
    pub variant: String,
    pub repo: String,
    pub files: Vec<ModelManifestFile>,
    pub folder_sha256: String,
}

pub enum ModelError {
    UnknownVariant(String),
    Download(String),
    Cancelled,
    /// An I/O failure, with its message.
    Io(String),
    Manifest(String),
}

impl ModelError {
    pub open spec fn message_spec(&self) -> Seq<char> {
        match self {
            ModelError::UnknownVariant(m) => "unknown model variant: "@ + m@,
            ModelError::Download(m) => "download failed: "@ + m@,
            ModelError::Cancelled => "download cancelled"@,
            ModelError::Io(m) => "io error: "@ + m@,
            ModelError::Manifest(m) => "manifest error: "@ + m@,
        }
    }

    /// The error's display text.
    pub fn message(&self) -> (r: String)
        ensures
            r@ == self.message_spec(),
    {
        let (mut out, detail) = match self {
            ModelError::UnknownVariant(m) => (to_owned_string("unknown model variant: "), m.as_str()),
            ModelError::Download(m) => (to_owned_string("download failed: "), m.as_str()),
            ModelError::Cancelled => (to_owned_string("download cancelled"), ""),
            ModelError::Io(m) => (to_owned_string("io error: "), m.as_str()),
            ModelError::Manifest(m) => (to_owned_string("manifest error: "), m.as_str()),
        };
        append_str(&mut out, detail);
        proof {
            reveal_strlit("unknown model variant: ");
            reveal_strlit("download failed: ");
            reveal_strlit("download cancelled");
            reveal_strlit("io error: ");
            reveal_strlit("manifest error: ");
            reveal_strlit("");
        }
        assert(out@ =~= self.message_spec());
        out
    }
}

/// Smallest size a required file must have to count as downloaded.
pub open spec fn min_bytes_for(name: Seq<char>) -> u64 {
    let l = lower(name);
    if ends_with(l, ".onnx.data"@) {
        1000000
    } else if ends_with(l, ".onnx"@) {
        1000
    } else {
        32
    }
}

pub fn required_file_min_bytes(name: &str) -> (r: u64)
    ensures
        r == min_bytes_for(name@),
{
    let l = lower_str(name);
    if ends_with_str(l.as_str(), ".onnx.data") {
        1000000
    } else if ends_with_str(l.as_str(), ".onnx") {
        1000
    } else {
        32
    }
}

/// A download leftover (`*.part`) that makes a model folder incomplete.
pub fn is_part_file_name(name: &str) -> (r: bool)
    ensures
        r == ends_with(name@, ".part"@),
{
    ends_with_str(name, ".part")
}

/// The first manifest entry named `name` lists at least the floor size for that file.
pub open spec fn lists_required(files: Seq<ModelManifestFile>, name: Seq<char>) -> bool {
    exists|j: int|
        0 <= j < files.len() && #[trigger] files[j].name@ == name && (forall|k: int|
            0 <= k < j ==> files[k].name@ != name) && files[j].size_bytes >= min_bytes_for(name)
}

/// A stored manifest agrees with a variant: same variant name (ASCII case ignored), and
/// every required file listed with at least its floor size.
pub open spec fn manifest_matches(manifest_variant: Seq<char>, files: Seq<ModelManifestFile>, variant: Seq<char>, required: Seq<Seq<char>>) -> bool {
    &&& lower(manifest_variant) == lower(variant)
    &&& forall|i: int| 0 <= i < required.len() ==> lists_required(files, #[trigger] required[i])
}

fn first_listed_size(files: &Vec<ModelManifestFile>, name: &str) -> (r: Option<u64>)
    ensures
        match r {
            Some(sz) => exists|j: int|
                0 <= j < files@.len() && #[trigger] files@[j].name@ == name@ && (forall|k: int|
                    0 <= k < j ==> files@[k].name@ != name@) && files@[j].size_bytes == sz,
            None => forall|k: int| 0 <= k < files@.len() ==> #[trigger] files@[k].name@ != name@,
        },
{
    let mut i: usize = 0;
    while i < files.len()
        invariant
            i <= files.len(),
            forall|k: int| 0 <= k < i ==> #[trigger] files@[k].name@ != name@,
        decreases files.len() - i,
    {
        if str_eq(files[i].name.as_str(), name) {
            return Some(files[i].size_bytes);
        }
        i = i + 1;
    }
    None
}

pub fn manifest_matches_spec(manifest: &ModelManifest, variant: &str, required: &Vec<String>) -> (r: bool)
    ensures
        r == manifest_matches(manifest.variant@, manifest.files@, variant@, required@.map_values(|s: String| s@)),
{
    let mv = lower_str(manifest.variant.as_str());
    let v = lower_str(variant);
    if !str_eq(mv.as_str(), v.as_str()) {
        return false;
    }
    let ghost req = required@.map_values(|s: String| s@);
    let mut i: usize = 0;
    while i < required.len()
        invariant
            i <= required.len(),
            req == required@.map_values(|s: String| s@),
            forall|k: int| 0 <= k < i ==> lists_required(manifest.files@, #[trigger] req[k]),
        decreases required.len() - i,
    {
        let name = required[i].as_str();
        match first_listed_size(&manifest.files, name) {
            Some(sz) => {
                if sz < required_file_min_bytes(name) {
                    proof {
                        assert(req[i as int] == name@);
                        if lists_required(manifest.files@, name@) {
                            let j = choose|j: int|
                                0 <= j < manifest.files@.len() && #[trigger] manifest.files@[j].name@ == name@
                                    && (forall|k: int| 0 <= k < j ==> manifest.files@[k].name@ != name@)
                                    && manifest.files@[j].size_bytes >= min_bytes_for(name@);
                            let j2 = choose|j: int|
                                0 <= j < manifest.files@.len() && #[trigger] manifest.files@[j].name@ == name@
                                    && (forall|k: int| 0 <= k < j ==> manifest.files@[k].name@ != name@)
                                    && manifest.files@[j].size_bytes == sz;
                            assert(!(j < j2));
                            assert(!(j2 < j));
                        }
                    }
                    return false;
                }
            },
            None => {
                proof {
                    assert(req[i as int] == name@);
                }
                return false;
            },
        }
        i = i + 1;
    }
    true
}

/// A variant folder holds a usable install: it is a folder not awaiting deletion, with no
/// `.part` download leftovers, every required file a regular file of at least its floor
/// size, and a stored manifest (when there is a readable one) that agrees.
pub open spec fn looks_complete(
    is_dir: bool,
    dir_name: Seq<char>,
    entry_names: Seq<Seq<char>>,
    required: Seq<Seq<char>>,
    required_sizes: Seq<Option<u64>>,
    manifest: Option<(Seq<char>, Seq<ModelManifestFile>)>,
    variant: Seq<char>,
) -> bool {
    &&& is_dir
    &&& !ends_with(dir_name, ".pending_delete"@)
    &&& forall|i: int| 0 <= i < entry_names.len() ==> !ends_with(#[trigger] entry_names[i], ".part"@)
    &&& forall|i: int|
        0 <= i < required.len() ==> (#[trigger] required_sizes[i] matches Some(sz) && sz >= min_bytes_for(
            required[i],
        ))
    &&& match manifest {
        Some((mv, files)) => manifest_matches(mv, files, variant, required),
        None => true,
    }
}

pub open spec fn manifest_view(m: Option<&ModelManifest>) -> Option<(Seq<char>, Seq<ModelManifestFile>)> {
    match m {
        Some(x) => Some((x.variant@, x.files@)),
        None => None,
    }
}

/// `required_sizes[i]` is the size of `required[i]` when it is a regular file.
pub fn model_dir_looks_complete(
    is_dir: bool,
    dir_name: &str,
    entry_names: &Vec<String>,
    required: &Vec<String>,
    required_sizes: &Vec<Option<u64>>,
    manifest: Option<&ModelManifest>,
    variant: &str,
) -> (r: bool)
    requires
        required.len() == required_sizes.len(),
    ensures
        r == looks_complete(
            is_dir,
            dir_name@,
            entry_names@.map_values(|s: String| s@),
            required@.map_values(|s: String| s@),
            required_sizes@,
            manifest_view(manifest),
            variant@,
        ),
{
    if !is_dir {
        return false;
    }
    if ends_with_str(dir_name, ".pending_delete") {
        return false;
    }
    let ghost names = entry_names@.map_values(|s: String| s@);
    let mut i: usize = 0;
    while i < entry_names.len()
        invariant
            i <= entry_names.len(),
            names == entry_names@.map_values(|s: String| s@),
            forall|k: int| 0 <= k < i ==> !ends_with(#[trigger] names[k], ".part"@),
        decreases entry_names.len() - i,
    {
        if is_part_file_name(entry_names[i].as_str()) {
            assert(names[i as int] == entry_names@[i as int]@);
            return false;
        }
        i = i + 1;
    }
    let ghost req = required@.map_values(|s: String| s@);
    let mut j: usize = 0;
    while j < required.len()
        invariant
            j <= required.len(),
            required.len() == required_sizes.len(),
            req == required@.map_values(|s: String| s@),
            forall|k: int|
                0 <= k < j ==> (#[trigger] required_sizes@[k] matches Some(sz) && sz >= min_bytes_for(req[k])),
        decreases required.len() - j,
    {
        let floor = required_file_min_bytes(required[j].as_str());
        match required_sizes[j] {
            Some(sz) => {
                if sz < floor {
                    return false;
                }
            },
            None => {
                return false;
            },
        }
        j = j + 1;
    }
    match manifest {
        Some(m) => manifest_matches_spec(m, variant, required),
        None => true,
    }
}

/// The model folder to use: the configured path (trimmed) when it holds an install of the
/// selected variant, else the canonical folder.  `configured_installed` is the install
/// check of the trimmed configured path.
pub fn resolve_model_dir(config_model_path: &str, canonical: &str, configured_installed: bool) -> (r: String)
    ensures
        trim(config_model_path@).len() == 0 ==> r@ == canonical@,
        trim(config_model_path@).len() > 0 ==> r@ == if configured_installed {
            trim(config_model_path@)
        } else {
            canonical@
        },
{
    let trimmed = trim_str(config_model_path);
    if trimmed.as_str().is_empty() {
        return to_owned_string(canonical);
    }
    if configured_installed {
        trimmed
    } else {
        to_owned_string(canonical)
    }
}

/// What the catalog shows of one variant of a family.
pub struct VariantSpec {
    pub variant: String,
    pub size_mb: u32,
    pub author: String,
}

pub open spec fn catalog_entry_of(
    family: Seq<char>,
    spec: VariantSpec,
    installed: bool,
    family_is_active: bool,
    active_variant: Seq<char>,
) -> (Seq<char>, Seq<char>, bool, u32, bool, Seq<char>) {
    (
        family,
        spec.variant@,
        installed,
        spec.size_mb,
        family_is_active && lower(trim(active_variant)) == lower(spec.variant@),
        spec.author@,
    )
}

pub open spec fn entry_view(e: ModelCatalogEntry) -> (Seq<char>, Seq<char>, bool, u32, bool, Seq<char>) {
    (e.family@, e.variant@, e.installed, e.size_mb, e.active, e.source_author@)
}

/// The catalog of a family: one entry per variant in order, with its install state; the
/// entry of the selected variant (trimmed, ASCII case ignored) is active when the family
/// is the selected one.
pub fn build_model_catalog(
    family: &str,
    specs: &Vec<VariantSpec>,
    installed: &Vec<bool>,
    family_is_active: bool,
    active_variant: &str,
) -> (r: Vec<ModelCatalogEntry>)
    requires
        specs.len() == installed.len(),
    ensures
        r.len() == specs.len(),
        forall|i: int|
            0 <= i < r.len() ==> entry_view(#[trigger] r@[i]) == catalog_entry_of(
                family@,
                specs@[i],
                installed@[i],
                family_is_active,
                active_variant@,
            ),
{
    let active = lower_str(trim_str(active_variant).as_str());
    let mut out: Vec<ModelCatalogEntry> = Vec::new();
    let mut i: usize = 0;
    while i < specs.len()
        invariant
            i <= specs.len(),
            specs.len() == installed.len(),
            out.len() == i,
            active@ == lower(trim(active_variant@)),
            forall|k: int|
                0 <= k < i ==> entry_view(#[trigger] out@[k]) == catalog_entry_of(
                    family@,
                    specs@[k],
                    installed@[k],
                    family_is_active,
                    active_variant@,
                ),
        decreases specs.len() - i,
    {
        let spec = &specs[i];
        let v = lower_str(spec.variant.as_str());
        let entry = ModelCatalogEntry {
            family: to_owned_string(family),
            variant: spec.variant.clone(),
            installed: installed[i],
            size_mb: spec.size_mb,
            active: family_is_active && str_eq(active.as_str(), v.as_str()),
            source_author: spec.author.clone(),
        };
        out.push(entry);
        i = i + 1;
    }
    out
}

pub open spec fn sum_sat(v: Seq<u64>) -> u64
    decreases v.len(),
{
    if v.len() == 0 {
        0
    } else {
        let rest = sum_sat(v.drop_last());
        if rest + v.last() > u64::MAX {
            u64::MAX
        } else {
            (rest + v.last()) as u64
        }
    }
}

/// Expected size of a model download: the catalogue size (MiB, saturating) or, when
/// larger, the sizes the server reports for the files still missing (summed saturating);
/// none when both are zero.
pub open spec fn model_download_total_spec(size_mb: u32, measured: Seq<u64>) -> Option<u64> {
    let catalog = if size_mb * 1048576 > u64::MAX { u64::MAX } else { (size_mb * 1048576) as u64 };
    let m = sum_sat(measured);
    if m > catalog {
        Some(m)
    } else if catalog > 0 {
        Some(catalog)
    } else {
        None
    }
}

pub fn model_download_total(size_mb: u32, measured: &Vec<u64>) -> (r: Option<u64>)
    ensures
        r == model_download_total_spec(size_mb, measured@),
{
    let catalog: u64 = (size_mb as u64) * 1048576;
    let mut m: u64 = 0;
    let mut i: usize = 0;
    while i < measured.len()
        invariant
            i <= measured.len(),
            m == sum_sat(measured@.take(i as int)),
        decreases measured.len() - i,
    {
        assert(measured@.take(i + 1).drop_last() =~= measured@.take(i as int));
        m = m.saturating_add(measured[i]);
        i = i + 1;
    }
    assert(measured@.take(measured.len() as int) =~= measured@);
    if m > catalog {
        Some(m)
    } else if catalog > 0 {
        Some(catalog)
    } else {
        None
    }
}

// ---------------------------------------------------------------------------------------
// Hashing

/// The SHA-256 digest of `data`.
pub uninterp spec fn sha256_of(data: Seq<u8>) -> Seq<u8>;

/// `sha2::Sha256::digest`: the 32-byte SHA-256 digest of the bytes.
#[verifier::external_body]
fn sha256(data: &[u8]) -> (r: Vec<u8>)
    ensures
        r@ == sha256_of(data@),
        r@.len() == 32,
{
    sha2::Sha256::digest(data).to_vec()
}

pub open spec fn hex_digit(n: u8) -> char {
    if n < 10 {
        (48 + n) as char
    } else {
        (97 + n - 10) as char
    }
}

/// Lowercase hex, two digits per byte.
pub open spec fn hex(bytes: Seq<u8>) -> Seq<char>
    decreases bytes.len(),
{
    if bytes.len() == 0 {
        Seq::empty()
    } else {
        hex(bytes.drop_last()).push(hex_digit(bytes.last() / 16)).push(hex_digit(bytes.last() % 16))
    }
}

fn hex_digit_exec(n: u8) -> (r: char)
    requires
        n < 16,
    ensures
        r == hex_digit(n),
{
    if n < 10 {
        (48u8 + n) as char
    } else {
        (97u8 + n - 10) as char
    }
}

/// Two hex digits per byte.
pub proof fn lemma_hex_len(bytes: Seq<u8>)
    ensures
        hex(bytes).len() == 2 * bytes.len(),
    decreases bytes.len(),
{
    if bytes.len() > 0 {
        lemma_hex_len(bytes.drop_last());
    }
}

pub fn hex_digest(bytes: &[u8]) -> (r: String)
    ensures
        r@ == hex(bytes@),
{
    let mut out = String::new();
    let mut i: usize = 0;
    while i < bytes.len()
        invariant
            i <= bytes.len(),
            out@ == hex(bytes@.take(i as int)),
        decreases bytes.len() - i,
    {
        let b = bytes[i];
        proof {
            assert(bytes@.take(i + 1).drop_last() =~= bytes@.take(i as int));
            assert(bytes@.take(i + 1).last() == b);
        }
        push_char(&mut out, hex_digit_exec(b / 16));
        push_char(&mut out, hex_digit_exec(b % 16));
        i = i + 1;
    }
    assert(bytes@.take(bytes.len() as int) =~= bytes@);
    out
}

/// The bytes the folder fingerprint covers: each file's name, then its fingerprint, in
/// manifest order.
pub open spec fn folder_digest_input(files: Seq<ModelManifestFile>) -> Seq<u8>
    decreases files.len(),
{
    if files.len() == 0 {
        Seq::empty()
    } else {
        folder_digest_input(files.drop_last()) + utf8(files.last().name@) + utf8(files.last().sha256@)
    }
}

pub open spec fn utf8(s: Seq<char>) -> Seq<u8> {
    vstd::utf8::encode_utf8(s)
}

fn append_bytes(out: &mut Vec<u8>, s: &str)
    ensures
        final(out)@ == old(out)@ + s.spec_bytes(),
{
    let b = s.as_bytes();
    let mut i: usize = 0;
    let ghost start = out@;
    while i < b.len()
        invariant
            i <= b.len(),
            b@ == s.spec_bytes(),
            out@ == start + b@.take(i as int),
        decreases b.len() - i,
    {
        out.push(b[i]);
        assert(b@.take(i + 1) =~= b@.take(i as int).push(b@[i as int]));
        i = i + 1;
    }
    assert(b@.take(b.len() as int) =~= b@);
}

/// Fingerprint of a whole model folder: SHA-256 over every file's name and fingerprint,
/// in manifest order, in lowercase hex.
pub fn folder_digest(files: &Vec<ModelManifestFile>) -> (r: String)
    ensures
        r@ == hex(sha256_of(folder_digest_input(files@))),
        r@.len() == 64,
{
    let mut data: Vec<u8> = Vec::new();
    let mut i: usize = 0;
    while i < files.len()
        invariant
            i <= files.len(),
            data@ == folder_digest_input(files@.take(i as int)),
        decreases files.len() - i,
    {
        append_bytes(&mut data, files[i].name.as_str());
        append_bytes(&mut data, files[i].sha256.as_str());
        proof {
            let t = files@.take(i + 1);
            assert(t.drop_last() =~= files@.take(i as int));
            assert(t.last() == files@[i as int]);
        }
        i = i + 1;
    }
    assert(files@.take(files.len() as int) =~= files@);
    let digest = sha256(data.as_slice());
    proof {
        lemma_hex_len(digest@);
    }
    hex_digest(digest.as_slice())
}

/// Fingerprint field of one manifest entry: the full-content SHA-256 for files up to
/// [`MANIFEST_FULL_HASH_MAX_BYTES`], else `size:<bytes>`.
pub open spec fn entry_fingerprint(size_bytes: u64, contents: Seq<u8>) -> Seq<char> {
    if size_bytes > MANIFEST_FULL_HASH_MAX_BYTES {
        "size:"@ + crate::text::decimal(size_bytes as nat)
    } else {
        hex(sha256_of(contents))
    }
}

/// Manifest entry of a file of `size_bytes` bytes; `contents` is read only for files that
/// are hashed in full (it is ignored for larger ones).
pub fn file_manifest_entry(name: &str, size_bytes: u64, contents: &[u8]) -> (r: ModelManifestFile)
    ensures
        r.name@ == name@,
        r.size_bytes == size_bytes,
        r.sha256@ == entry_fingerprint(size_bytes, contents@),
{
    let sha256_field = if size_bytes > MANIFEST_FULL_HASH_MAX_BYTES {
        let mut s = to_owned_string("size:");
        crate::text::push_decimal(&mut s, size_bytes);
        proof {
            reveal_strlit("size:");
        }
        s
    } else {
        let digest = sha256(contents);
        hex_digest(digest.as_slice())
    };
    ModelManifestFile { name: to_owned_string(name), sha256: sha256_field, size_bytes }
}

// ---------------------------------------------------------------------------------------
// Manifest order

/// Lexicographic order of names by code point (the byte order of their UTF-8 text, which
/// is how `String` compares).
pub open spec fn name_le(a: Seq<char>, b: Seq<char>) -> bool
    decreases a.len(),
{
    if a.len() == 0 {
        true
    } else if b.len() == 0 {
        false
    } else if a[0] != b[0] {
        a[0] < b[0]
    } else {
        name_le(a.drop_first(), b.drop_first())
    }
}

pub proof fn lemma_name_le_total(a: Seq<char>, b: Seq<char>)
    ensures
        name_le(a, b) || name_le(b, a),
    decreases a.len(),
{
    if a.len() > 0 && b.len() > 0 && a[0] == b[0] {
        lemma_name_le_total(a.drop_first(), b.drop_first());
    }
}

pub proof fn lemma_name_le_transitive(a: Seq<char>, b: Seq<char>, c: Seq<char>)
    requires
        name_le(a, b),
        name_le(b, c),
    ensures
        name_le(a, c),
    decreases a.len(),
{
    if a.len() > 0 && b.len() > 0 && c.len() > 0 && a[0] == b[0] && b[0] == c[0] {
        lemma_name_le_transitive(a.drop_first(), b.drop_first(), c.drop_first());
    }
}

fn name_le_exec(a: &str, b: &str) -> (r: bool)
    ensures
        r == name_le(a@, b@),
{
    let va = crate::text::chars_of(a);
    let vb = crate::text::chars_of(b);
    let mut i: usize = 0;
    assert(a@.skip(0) =~= a@);
    assert(b@.skip(0) =~= b@);
    while i < va.len() && i < vb.len()
        invariant
            va@ == a@,
            vb@ == b@,
            i <= va.len(),
            i <= vb.len(),
            name_le(a@, b@) == name_le(a@.skip(i as int), b@.skip(i as int)),
        decreases va.len() - i,
    {
        let ghost sa = a@.skip(i as int);
        let ghost sb = b@.skip(i as int);
        proof {
            assert(sa[0] == va@[i as int]);
            assert(sb[0] == vb@[i as int]);
            assert(sa.drop_first() =~= a@.skip(i + 1));
            assert(sb.drop_first() =~= b@.skip(i + 1));
        }
        if va[i] != vb[i] {
            return va[i] < vb[i];
        }
        i = i + 1;
    }
    proof {
        if i == va.len() {
            assert(a@.skip(i as int).len() == 0);
        } else {
            assert(b@.skip(i as int).len() == 0);
        }
    }
    i == va.len()
}

/// Entries in non-decreasing name order.
pub open spec fn sorted_by_name(s: Seq<ModelManifestFile>) -> bool {
    forall|i: int, j: int| 0 <= i < j < s.len() ==> name_le(#[trigger] s[i].name@, #[trigger] s[j].name@)
}

/// Sorts manifest entries by name, keeping equal names in their order.
pub fn sort_by_name(files: Vec<ModelManifestFile>) -> (r: Vec<ModelManifestFile>)
    ensures
        sorted_by_name(r@),
        r@.to_multiset() == files@.to_multiset(),
{
    broadcast use group_to_multiset_ensures;

    let ghost input = files@;
    let mut rest = files;
    let mut out: Vec<ModelManifestFile> = Vec::new();
    let n = rest.len();
    let mut i: usize = 0;
    while i < n
        invariant
            n == input.len(),
            i <= n,
            rest@ == input.skip(i as int),
            sorted_by_name(out@),
            out@.to_multiset() == input.take(i as int).to_multiset(),
        decreases n - i,
    {
        let x = rest.remove(0);
        proof {
            assert(input.skip(i as int)[0] == input[i as int]);
            assert(rest@ =~= input.skip(i + 1));
            assert(input.take(i + 1) =~= input.take(i as int).push(input[i as int]));
        }
        let mut p: usize = out.len();
        while p > 0 && !name_le_exec(out[p - 1].name.as_str(), x.name.as_str())
            invariant
                p <= out.len(),
                forall|k: int| p <= k < out.len() ==> !name_le(#[trigger] out@[k].name@, x.name@),
            decreases p,
        {
            p = p - 1;
        }
        let ghost old_out = out@;
        proof {
            assert forall|k: int| 0 <= k < p implies name_le(#[trigger] old_out[k].name@, x.name@) by {
                if k < p - 1 {
                    assert(name_le(old_out[k].name@, old_out[p - 1].name@));
                    lemma_name_le_transitive(old_out[k].name@, old_out[p - 1].name@, x.name@);
                }
            }
            assert forall|k: int| p <= k < old_out.len() implies name_le(x.name@, #[trigger] old_out[k].name@) by {
                lemma_name_le_total(old_out[k].name@, x.name@);
            }
        }
        out.insert(p, x);
        proof {
            let s = out@;
            assert(s =~= old_out.insert(p as int, x));
            assert forall|a: int, b: int| 0 <= a < b < s.len() implies name_le(#[trigger] s[a].name@, #[trigger] s[b].name@) by {
                if a < p && b == p {
                } else if a == p && b > p {
                    assert(s[b] == old_out[b - 1]);
                } else if b < p {
                    assert(s[a] == old_out[a] && s[b] == old_out[b]);
                } else if a < p && b > p {
                    assert(s[a] == old_out[a] && s[b] == old_out[b - 1]);
                } else {
                    assert(s[a] == old_out[a - 1] && s[b] == old_out[b - 1]);
                }
            }
            assert(s.remove(p as int) =~= old_out);
            assert(s[p as int] == x);
            vstd::seq_lib::to_multiset_remove(s, p as int);
            s.to_multiset_ensures();
            assert(s.contains(x));
            assert(s.to_multiset().count(x) > 0);
            assert(s.to_multiset() =~= old_out.to_multiset().insert(x));
            vstd::seq_lib::to_multiset_build(input.take(i as int), input[i as int]);
            assert(input.take(i + 1).to_multiset() =~= input.take(i as int).to_multiset().insert(x));
        }
        i = i + 1;
    }
    assert(input.take(n as int) =~= input);
    out
}

/// A manifest for a model folder: entries sorted by name and the folder fingerprint over
/// them.
pub fn write_manifest(family: &str, variant: &str, repo: &str, files: Vec<ModelManifestFile>) -> (r: ModelManifest)
    ensures
        r.family@ == family@,
        r.variant@ == variant@,
        r.repo@ == repo@,
        sorted_by_name(r.files@),
        r.files@.to_multiset() == files@.to_multiset(),
        r.folder_sha256@ == hex(sha256_of(folder_digest_input(r.files@))),
        r.folder_sha256@.len() == 64,
{
    let files = sort_by_name(files);
    let folder_sha256 = folder_digest(&files);
    ModelManifest {
        family: to_owned_string(family),
        variant: to_owned_string(variant),
        repo: to_owned_string(repo),
        files,
        folder_sha256,
    }
}

} // verus!
