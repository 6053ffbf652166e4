//! Runtime dependency readiness: which DLL groups are complete, whether the CPU and CUDA
//! execution providers can run, and the error a provider check reports.
//!
//! Finding the files on disk is I/O; the decisions here take what a lookup found.
use vstd::prelude::*;

use crate::config::cuda_ep;
use crate::text::{
    append_str, chars_of, contains_at_some, starts_with, starts_with_str, contains_str, ends_with, ends_with_str, join, lower, lower_str, str_eq,
    string_from_chars, string_from_range, to_owned_string, trim, trim_str, vec_contains_str, vec_has, views,
};

verus! {

pub const ORT_VERSION: &'static str = "1.24.2";

pub const ORT_CPU_ZIP_URL: &'static str = "https://github.com/microsoft/onnxruntime/releases/download/v1.24.2/onnxruntime-win-x64-1.24.2.zip";

pub const ORT_GPU_ZIP_URL: &'static str = "https://github.com/microsoft/onnxruntime/releases/download/v1.24.2/onnxruntime-win-x64-gpu_cuda13-1.24.2.zip";

pub const CUDART_WHEEL_URL: &'static str = "https://files.pythonhosted.org/packages/d2/27/b53a5e0397842a5c11f0e1a39d4e5b2f22638a4126e83b3c4e196f62c969/nvidia_cuda_runtime-13.3.29-py3-none-win_amd64.whl";

pub const CUBLAS_WHEEL_URL: &'static str = "https://files.pythonhosted.org/packages/08/8f/890a96ea1ff615100296977cce23296052dcb8c114d4e451201ec39df9bf/nvidia_cublas-13.6.0.2-py3-none-win_amd64.whl";

pub const CUDNN_WHEEL_URL: &'static str = "https://files.pythonhosted.org/packages/31/23/1dd3aa15cc4ab62c8fc88f8049ef137bc44c17892f5577bc80d994941f77/nvidia_cudnn_cu13-9.24.0.43-py3-none-win_amd64.whl";

pub const CUDA_DOWNLOAD_MB: u64 = 790;

pub const ORT_CPU_DOWNLOAD_MB: u64 = 14;

pub const ORT_GPU_DOWNLOAD_MB: u64 = 180;

/// Official CUDA Toolkit 13.x download page (Windows x64 installer).  The GPU ONNX Runtime
/// package is the `cuda13` build; Toolkit 12 is not compatible.
pub const CUDA_TOOLKIT_URL: &'static str = "https://developer.nvidia.com/cuda-13-0-0-download-archive?target_os=Windows&target_arch=x86_64&target_type=exe_local";

/// Marker that a CUDA 13.x toolkit `bin` directory is present.
pub const CUDA13_MARKER_DLL: &'static str = "cudart64_13.dll";

/// Fallback wheel sizes (bytes) when `Content-Length` is unavailable.
pub const CUDART_WHEEL_BYTES: u64 = 3145728;

pub const CUBLAS_WHEEL_BYTES: u64 = 413138944;

pub const CUDNN_WHEEL_BYTES: u64 = 412090368;

pub open spec fn ort_cpu_dll_names() -> Seq<Seq<char>> {
    seq!["onnxruntime.dll"@, "onnxruntime_providers_shared.dll"@]
}

pub open spec fn ort_gpu_dll_names() -> Seq<Seq<char>> {
    seq!["onnxruntime.dll"@, "onnxruntime_providers_cuda.dll"@, "onnxruntime_providers_shared.dll"@]
}

pub open spec fn cuda_runtime_dll_names() -> Seq<Seq<char>> {
    seq!["cudart64_13.dll"@, "cublas64_13.dll"@, "cublasLt64_13.dll"@]
}

pub open spec fn cudnn_dll_names() -> Seq<Seq<char>> {
    seq!["cudnn64_9.dll"@, "cudnn_adv64_9.dll"@, "cudnn_cnn64_9.dll"@, "cudnn_engines_precompiled64_9.dll"@, "cudnn_engines_runtime_compiled64_9.dll"@, "cudnn_engines_tensor_ir64_9.dll"@, "cudnn_ext64_9.dll"@, "cudnn_graph64_9.dll"@, "cudnn_heuristic64_9.dll"@, "cudnn_ops64_9.dll"@]
}

pub open spec fn cuda_redist_dll_names() -> Seq<Seq<char>> {
    cuda_runtime_dll_names() + cudnn_dll_names()
}

pub open spec fn vcruntime_dll_names() -> Seq<Seq<char>> {
    seq!["MSVCP140.dll"@, "VCRUNTIME140.dll"@, "VCRUNTIME140_1.dll"@, "VCOMP140.dll"@]
}

/// CPU ONNX Runtime package: the core DLL and the shared provider glue.
pub fn ort_cpu_dlls() -> (r: Vec<&'static str>)
    ensures
        str_views(r@) == ort_cpu_dll_names(),
{
    let r = 
    vec!["onnxruntime.dll", "onnxruntime_providers_shared.dll"];
    assert(str_views(r@) =~= ort_cpu_dll_names());
    r
}

/// GPU ONNX Runtime package: the CUDA provider plug-in is required, the core DLL alone
/// falls back to CPU.
pub fn ort_gpu_dlls() -> (r: Vec<&'static str>)
    ensures
        str_views(r@) == ort_gpu_dll_names(),
{
    let r = 
    vec!["onnxruntime.dll", "onnxruntime_providers_cuda.dll", "onnxruntime_providers_shared.dll"];
    assert(str_views(r@) =~= ort_gpu_dll_names());
    r
}

pub fn cuda_runtime_dlls() -> (r: Vec<&'static str>)
    ensures
        str_views(r@) == cuda_runtime_dll_names(),
{
    let r = 
    vec!["cudart64_13.dll", "cublas64_13.dll", "cublasLt64_13.dll"];
    assert(str_views(r@) =~= cuda_runtime_dll_names());
    r
}

/// cuDNN 9 redistributable required by the CUDA execution provider.
pub fn cudnn_dlls() -> (r: Vec<&'static str>)
    ensures
        str_views(r@) == cudnn_dll_names(),
{
    let r = 
    vec![
        "cudnn64_9.dll",
        "cudnn_adv64_9.dll",
        "cudnn_cnn64_9.dll",
        "cudnn_engines_precompiled64_9.dll",
        "cudnn_engines_runtime_compiled64_9.dll",
        "cudnn_engines_tensor_ir64_9.dll",
        "cudnn_ext64_9.dll",
        "cudnn_graph64_9.dll",
        "cudnn_heuristic64_9.dll",
        "cudnn_ops64_9.dll",
    ];
    assert(str_views(r@) =~= cudnn_dll_names());
    r
}

pub fn cuda_redist_dlls() -> (r: Vec<&'static str>)
    ensures
        str_views(r@) == cuda_redist_dll_names(),
{
    let r = 
    vec![
        "cudart64_13.dll",
        "cublas64_13.dll",
        "cublasLt64_13.dll",
        "cudnn64_9.dll",
        "cudnn_adv64_9.dll",
        "cudnn_cnn64_9.dll",
        "cudnn_engines_precompiled64_9.dll",
        "cudnn_engines_runtime_compiled64_9.dll",
        "cudnn_engines_tensor_ir64_9.dll",
        "cudnn_ext64_9.dll",
        "cudnn_graph64_9.dll",
        "cudnn_heuristic64_9.dll",
        "cudnn_ops64_9.dll",
    ];
    assert(str_views(r@) =~= cuda_redist_dll_names());
    r
}

pub fn vcruntime_dlls() -> (r: Vec<&'static str>)
    ensures
        str_views(r@) == vcruntime_dll_names(),
{
    let r = 
    vec!["MSVCP140.dll", "VCRUNTIME140.dll", "VCRUNTIME140_1.dll", "VCOMP140.dll"];
    assert(str_views(r@) =~= vcruntime_dll_names());
    r
}

pub enum DepError {
    /// An I/O failure, with its message.
    Io(String),
    Download(String),
    Cancelled,
    Archive(String),
    Check(String),
}

impl DepError {
    pub open spec fn message_spec(&self) -> Seq<char> {
        match self {
            DepError::Io(m) => "io error: "@ + m@,
            DepError::Download(m) => "download error: "@ + m@,
            DepError::Cancelled => "download cancelled"@,
            DepError::Archive(m) => "archive error: "@ + m@,
            DepError::Check(m) => "dependency check failed: "@ + m@,
        }
    }

    /// The error's display text.
    pub fn message(&self) -> (r: String)
        ensures
            r@ == self.message_spec(),
    {
        let (mut out, detail) = match self {
            DepError::Io(m) => (to_owned_string("io error: "), m.as_str()),
            DepError::Download(m) => (to_owned_string("download error: "), m.as_str()),
            DepError::Cancelled => (to_owned_string("download cancelled"), ""),
            DepError::Archive(m) => (to_owned_string("archive error: "), m.as_str()),
            DepError::Check(m) => (to_owned_string("dependency check failed: "), m.as_str()),
        };
        append_str(&mut out, detail);
        proof {
            reveal_strlit("io error: ");
            reveal_strlit("download error: ");
            reveal_strlit("download cancelled");
            reveal_strlit("archive error: ");
            reveal_strlit("dependency check failed: ");
            reveal_strlit("");
        }
        assert(out@ =~= self.message_spec());
        out
    }
}

#[derive(Debug, PartialEq, Eq, Structural, Clone, Copy)]
pub enum DepDownloadKind {
    OrtCpu,
    OrtGpu,
    CudaRedist,
}

pub open spec fn dep_kind_from(key: Seq<char>) -> Option<DepDownloadKind> {
    if key == "ort_cpu"@ || key == "onnxruntime_cpu"@ {
        Some(DepDownloadKind::OrtCpu)
    } else if key == "ort_gpu"@ || key == "onnxruntime_gpu"@ {
        Some(DepDownloadKind::OrtGpu)
    } else if key == "cuda_redist"@ || key == "cuda"@ {
        Some(DepDownloadKind::CudaRedist)
    } else {
        None
    }
}

impl DepDownloadKind {
    /// Parses a dependency kind, ignoring ASCII case and surrounding whitespace.
    pub fn parse(value: &str) -> (r: Option<Self>)
        ensures
            r == dep_kind_from(lower(trim(value@))),
    {
        let t = trim_str(value);
        let key = lower_str(t.as_str());
        let k = key.as_str();
        if str_eq(k, "ort_cpu") || str_eq(k, "onnxruntime_cpu") {
            Some(DepDownloadKind::OrtCpu)
        } else if str_eq(k, "ort_gpu") || str_eq(k, "onnxruntime_gpu") {
            Some(DepDownloadKind::OrtGpu)
        } else if str_eq(k, "cuda_redist") || str_eq(k, "cuda") {
            Some(DepDownloadKind::CudaRedist)
        } else {
            None
        }
    }
}

pub struct FoundDll {
    pub name: String,
    pub path: String,
}

pub struct DllGroupStatus {
    pub ok: bool,
    pub missing: Vec<String>,
    pub found: Vec<FoundDll>,
    pub download_mb: u64,
}

pub struct CudaToolkitStatus {
    pub ok: bool,
    pub version: Option<String>,
    pub message: Option<String>,
}

pub struct LocalAsrEnvCheck {
    pub vcruntime: DllGroupStatus,
    pub ort_cpu: DllGroupStatus,
    pub ort_gpu: DllGroupStatus,
    pub cuda_redist: DllGroupStatus,
    pub cuda_toolkit: CudaToolkitStatus,
    pub cpu_deps_ready: bool,
    pub cuda_deps_ready: bool,
}

/// Names whose lookup found nothing, in order.
pub open spec fn missing_names(names: Seq<Seq<char>>, paths: Seq<Option<Seq<char>>>) -> Seq<Seq<char>>
    decreases names.len(),
{
    if names.len() == 0 {
        Seq::empty()
    } else {
        let rest = missing_names(names.drop_last(), paths);
        if paths[names.len() - 1] is None {
            rest.push(names.last())
        } else {
            rest
        }
    }
}

/// `(name, path)` of every name whose lookup found a file, in order.
pub open spec fn found_pairs(names: Seq<Seq<char>>, paths: Seq<Option<Seq<char>>>) -> Seq<(Seq<char>, Seq<char>)>
    decreases names.len(),
{
    if names.len() == 0 {
        Seq::empty()
    } else {
        let rest = found_pairs(names.drop_last(), paths);
        match paths[names.len() - 1] {
            Some(p) => rest.push((names.last(), p)),
            None => rest,
        }
    }
}

pub open spec fn opt_views(v: Seq<Option<String>>) -> Seq<Option<Seq<char>>> {
    v.map_values(|o: Option<String>| match o {
        Some(s) => Some(s@),
        None => None,
    })
}

pub open spec fn found_views(v: Seq<FoundDll>) -> Seq<(Seq<char>, Seq<char>)> {
    v.map_values(|f: FoundDll| (f.name@, f.path@))
}

/// Status of one DLL group from what the lookup found for each name (`paths[i]` for
/// `names[i]`): complete exactly when nothing is missing.
pub fn check_group(names: &Vec<&str>, paths: &Vec<Option<String>>, download_mb: u64) -> (r: DllGroupStatus)
    requires
        paths.len() == names.len(),
    ensures
        views(r.missing@) == missing_names(names@.map_values(|n: &str| n@), opt_views(paths@)),
        found_views(r.found@) == found_pairs(names@.map_values(|n: &str| n@), opt_views(paths@)),
        r.ok == (r.missing.len() == 0),
        r.download_mb == download_mb,
{
    let ghost ns = names@.map_values(|n: &str| n@);
    let ghost ps = opt_views(paths@);
    let mut found: Vec<FoundDll> = Vec::new();
    let mut missing: Vec<String> = Vec::new();
    let mut i: usize = 0;
    while i < names.len()
        invariant
            ns == names@.map_values(|n: &str| n@),
            ps == opt_views(paths@),
            paths.len() == names.len(),
            i <= names.len(),
            views(missing@) == missing_names(ns.take(i as int), ps),
            found_views(found@) == found_pairs(ns.take(i as int), ps),
        decreases names.len() - i,
    {
        proof {
            let t = ns.take(i + 1);
            assert(t.drop_last() =~= ns.take(i as int));
            assert(t.last() == names@[i as int]@);
            assert(t.len() - 1 == i);
            assert(ps[i as int] == match paths@[i as int] {
                Some(s) => Some(s@),
                None => None,
            });
        }
        match &paths[i] {
            Some(path) => {
                let ghost f0 = found_views(found@);
                found.push(FoundDll { name: to_owned_string(names[i]), path: path.clone() });
                assert(found_views(found@) =~= f0.push((names@[i as int]@, path@)));
            },
            None => {
                let ghost m0 = views(missing@);
                missing.push(to_owned_string(names[i]));
                assert(views(missing@) =~= m0.push(names@[i as int]@));
            },
        }
        i = i + 1;
    }
    assert(ns.take(names.len() as int) =~= ns);
    let ok = missing.len() == 0;
    DllGroupStatus { ok, missing, found, download_mb }
}

/// The readiness flags are those the group statuses give.
pub open spec fn env_wf(env: LocalAsrEnvCheck) -> bool {
    &&& env.cpu_deps_ready == (env.vcruntime.ok && (env.ort_cpu.ok || env.ort_gpu.ok))
    &&& env.cuda_deps_ready == (env.vcruntime.ok && env.ort_gpu.ok && env.cuda_redist.ok && env.cuda_toolkit.ok)
}

/// Readiness from the group statuses: the GPU ONNX Runtime build also serves the CPU
/// execution provider; CUDA needs the GPU build, the CUDA redistributable and Toolkit 13.
pub fn env_check(
    vcruntime: DllGroupStatus,
    ort_cpu: DllGroupStatus,
    ort_gpu: DllGroupStatus,
    cuda_redist: DllGroupStatus,
    cuda_toolkit: CudaToolkitStatus,
) -> (r: LocalAsrEnvCheck)
    ensures
        r.vcruntime == vcruntime,
        r.ort_cpu == ort_cpu,
        r.ort_gpu == ort_gpu,
        r.cuda_redist == cuda_redist,
        r.cuda_toolkit == cuda_toolkit,
        r.cpu_deps_ready == (vcruntime.ok && (ort_cpu.ok || ort_gpu.ok)),
        r.cuda_deps_ready == (vcruntime.ok && ort_gpu.ok && cuda_redist.ok && cuda_toolkit.ok),
        env_wf(r),
{
    let cpu_deps_ready = vcruntime.ok && (ort_cpu.ok || ort_gpu.ok);
    let cuda_deps_ready = vcruntime.ok && ort_gpu.ok && cuda_redist.ok && cuda_toolkit.ok;
    LocalAsrEnvCheck {
        vcruntime,
        ort_cpu,
        ort_gpu,
        cuda_redist,
        cuda_toolkit,
        cpu_deps_ready,
        cuda_deps_ready,
    }
}

/// The `v13…` version named by the innermost path component that is one (ASCII case
/// ignored), scanning from the file name outwards.
pub open spec fn cuda13_version(components: Seq<Seq<char>>) -> Option<Seq<char>>
    decreases components.len(),
{
    if components.len() == 0 {
        None
    } else {
        let l = lower(components.last());
        if l.len() >= 3 && l[0] == 'v' && l[1] == '1' && l[2] == '3' {
            Some(l)
        } else {
            cuda13_version(components.drop_last())
        }
    }
}

/// Version of a CUDA 13 toolkit from the components of its marker DLL's path.
pub fn cuda13_version_from_components(components: &Vec<String>) -> (r: Option<String>)
    ensures
        match r {
            Some(s) => cuda13_version(views(components@)) == Some(s@),
            None => cuda13_version(views(components@)) is None,
        },
{
    let ghost cs = views(components@);
    let mut i: usize = components.len();
    assert(cs.take(i as int) =~= cs);
    while i > 0
        invariant
            cs == views(components@),
            i <= components.len(),
            cuda13_version(cs) == cuda13_version(cs.take(i as int)),
        decreases i,
    {
        let l = lower_str(components[i - 1].as_str());
        let v = crate::text::chars_of(l.as_str());
        proof {
            let t = cs.take(i as int);
            assert(t.last() == components@[i - 1]@);
            assert(t.drop_last() =~= cs.take(i - 1));
        }
        if v.len() >= 3 && v[0] == 'v' && v[1] == '1' && v[2] == '3' {
            return Some(l);
        }
        i = i - 1;
    }
    assert(cs.take(0) =~= Seq::<Seq<char>>::empty());
    None
}

/// Toolkit status from the first toolkit `bin` directory whose marker DLL was found
/// (`markers[i]` holds the components of that marker's path, if any).  Outside Windows the
/// CUDA execution provider is unavailable and the message says so.
pub open spec fn toolkit_status(markers: Seq<Option<Seq<Seq<char>>>>, on_windows: bool) -> (bool, Option<Seq<char>>, Option<Seq<char>>)
    decreases markers.len(),
{
    if markers.len() == 0 {
        (false, None, Some(if on_windows { "CUDA Toolkit 13 not found"@ } else { "CUDA EP is Windows-only in this module"@ }))
    } else {
        match markers[0] {
            Some(c) => (true, cuda13_version(c), Some("CUDA Toolkit 13 found"@)),
            None => toolkit_status(markers.skip(1), on_windows),
        }
    }
}

pub open spec fn marker_views(v: Seq<Option<Vec<String>>>) -> Seq<Option<Seq<Seq<char>>>> {
    v.map_values(|o: Option<Vec<String>>| match o {
        Some(c) => Some(views(c@)),
        None => None,
    })
}

pub open spec fn opt_str_view(o: Option<String>) -> Option<Seq<char>> {
    match o {
        Some(s) => Some(s@),
        None => None,
    }
}

pub fn check_cuda_toolkit_13_in(markers: &Vec<Option<Vec<String>>>, on_windows: bool) -> (r: CudaToolkitStatus)
    ensures
        (r.ok, opt_str_view(r.version), opt_str_view(r.message)) == toolkit_status(marker_views(markers@), on_windows),
{
    let ghost ms = marker_views(markers@);
    let mut i: usize = 0;
    assert(ms.skip(0) =~= ms);
    while i < markers.len()
        invariant
            ms == marker_views(markers@),
            i <= markers.len(),
            toolkit_status(ms, on_windows) == toolkit_status(ms.skip(i as int), on_windows),
        decreases markers.len() - i,
    {
        proof {
            assert(ms.skip(i as int)[0] == ms[i as int]);
            assert(ms.skip(i as int).skip(1) =~= ms.skip(i + 1));
        }
        match &markers[i] {
            Some(components) => {
                let version = cuda13_version_from_components(components);
                proof {
                    reveal_strlit("CUDA Toolkit 13 found");
                }
                return CudaToolkitStatus {
                    ok: true,
                    version,
                    message: Some(to_owned_string("CUDA Toolkit 13 found")),
                };
            },
            None => {},
        }
        i = i + 1;
    }
    assert(ms.skip(markers.len() as int) =~= Seq::<Option<Seq<Seq<char>>>>::empty());
    let message = if on_windows {
        to_owned_string("CUDA Toolkit 13 not found")
    } else {
        to_owned_string("CUDA EP is Windows-only in this module")
    };
    CudaToolkitStatus { ok: false, version: None, message: Some(message) }
}

/// Planned size of a wheel: the server's positive `Content-Length`, else the fallback.
pub fn resolve_wheel_bytes(result: Result<u64, DepError>, fallback: u64) -> (r: u64)
    ensures
        r == match result {
            Ok(bytes) => if bytes > 0 { bytes } else { fallback },
            Err(_) => fallback,
        },
{
    match result {
        Ok(bytes) => if bytes > 0 {
            bytes
        } else {
            fallback
        },
        Err(_) => fallback,
    }
}

pub open spec fn sat_add(a: u64, b: u64) -> u64 {
    if a + b > u64::MAX {
        u64::MAX
    } else {
        (a + b) as u64
    }
}

pub open spec fn planned_bytes(size: Option<Result<u64, DepError>>, fallback: u64) -> u64 {
    match size {
        Some(Ok(bytes)) => if bytes > 0 { bytes } else { fallback },
        Some(Err(_)) => fallback,
        None => 0,
    }
}

pub open spec fn fallback_bytes(size: Option<Result<u64, DepError>>, fallback: u64) -> u64 {
    match size {
        Some(_) => fallback,
        None => 0,
    }
}

/// Expected download size of the CUDA runtime install.  Each argument is `None` when that
/// wheel is already installed, else the result of asking the server for its size; sizes
/// add up saturating, and when they add up to nothing the built-in sizes are used.
pub open spec fn cuda_redist_total(
    cudart: Option<Result<u64, DepError>>,
    cublas: Option<Result<u64, DepError>>,
    cudnn: Option<Result<u64, DepError>>,
) -> u64 {
    let planned = sat_add(
        sat_add(planned_bytes(cudart, CUDART_WHEEL_BYTES), planned_bytes(cublas, CUBLAS_WHEEL_BYTES)),
        planned_bytes(cudnn, CUDNN_WHEEL_BYTES),
    );
    if planned == 0 {
        sat_add(
            sat_add(fallback_bytes(cudart, CUDART_WHEEL_BYTES), fallback_bytes(cublas, CUBLAS_WHEEL_BYTES)),
            fallback_bytes(cudnn, CUDNN_WHEEL_BYTES),
        )
    } else {
        planned
    }
}

pub fn plan_cuda_redist_total(
    cudart: Option<Result<u64, DepError>>,
    cublas: Option<Result<u64, DepError>>,
    cudnn: Option<Result<u64, DepError>>,
) -> (r: u64)
    ensures
        r == cuda_redist_total(cudart, cublas, cudnn),
{
    let mut planned: u64 = 0;
    let mut fallback: u64 = 0;
    if let Some(res) = cudart {
        fallback = fallback.saturating_add(CUDART_WHEEL_BYTES);
        planned = planned.saturating_add(resolve_wheel_bytes(res, CUDART_WHEEL_BYTES));
    }
    if let Some(res) = cublas {
        fallback = fallback.saturating_add(CUBLAS_WHEEL_BYTES);
        planned = planned.saturating_add(resolve_wheel_bytes(res, CUBLAS_WHEEL_BYTES));
    }
    if let Some(res) = cudnn {
        fallback = fallback.saturating_add(CUDNN_WHEEL_BYTES);
        planned = planned.saturating_add(resolve_wheel_bytes(res, CUDNN_WHEEL_BYTES));
    }
    if planned == 0 {
        fallback
    } else {
        planned
    }
}

/// An environment variable that may name a CUDA 13 toolkit: `CUDA_PATH` or
/// `CUDA_PATH_V13*` (ASCII case ignored); `CUDA_PATH_V12*` and older are not.
pub open spec fn cuda13_env_key(key: Seq<char>) -> bool {
    lower(key) == "cuda_path"@ || starts_with(lower(key), "cuda_path_v13"@)
}

pub fn is_cuda13_env_key(key: &str) -> (r: bool)
    ensures
        r == cuda13_env_key(key@),
{
    let l = lower_str(key);
    str_eq(l.as_str(), "cuda_path") || starts_with_str(l.as_str(), "cuda_path_v13")
}

/// A toolkit folder under `NVIDIA GPU Computing Toolkit/CUDA` for a 13.x release.
pub fn is_cuda13_folder(name: &str) -> (r: bool)
    ensures
        r == starts_with(lower(name@), "v13"@),
{
    let l = lower_str(name);
    starts_with_str(l.as_str(), "v13")
}

/// Folder names of the known 13.x releases, most preferred first.
pub fn cuda13_known_versions() -> (r: Vec<&'static str>)
    ensures
        str_views(r@) == seq!["v13.3"@, "v13.2"@, "v13.1"@, "v13.0"@, "v13"@],
{
    let r = vec!["v13.3", "v13.2", "v13.1", "v13.0", "v13"];
    assert(str_views(r@) =~= seq!["v13.3"@, "v13.2"@, "v13.1"@, "v13.0"@, "v13"@]);
    r
}

/// An archive entry path with every `\\` read as `/`.
pub open spec fn slashed(name: Seq<char>) -> Seq<char> {
    name.map_values(|c: char| if c == '\\' { '/' } else { c })
}

/// Index of the last `/` before position `n` (or -1).
pub open spec fn last_slash_before(s: Seq<char>, n: int) -> int
    decreases n,
{
    if n <= 0 {
        -1
    } else if s[n - 1] == '/' {
        n - 1
    } else {
        last_slash_before(s, n - 1)
    }
}

/// The last component of a `/`-separated path.
pub open spec fn base_name(s: Seq<char>) -> Seq<char> {
    s.subrange(last_slash_before(s, s.len() as int) + 1, s.len() as int)
}

pub proof fn lemma_last_slash(s: Seq<char>, n: int)
    requires
        0 <= n <= s.len(),
    ensures
        -1 <= last_slash_before(s, n) < n,
        last_slash_before(s, n) >= 0 ==> s[last_slash_before(s, n)] == '/',
        forall|k: int| last_slash_before(s, n) < k < n ==> s[k] != '/',
    decreases n,
{
    if n > 0 && s[n - 1] != '/' {
        lemma_last_slash(s, n - 1);
    }
}

/// First requested DLL whose name equals `base` (ASCII case ignored), from index `i` on.
pub open spec fn first_target_from(names: Seq<Seq<char>>, base: Seq<char>, i: int) -> int
    decreases names.len() - i,
{
    if 0 <= i < names.len() && lower(names[i]) != lower(base) {
        first_target_from(names, base, i + 1)
    } else {
        i
    }
}

/// Which requested DLL an archive entry installs: the entry's file name (ASCII case
/// ignored) must be one of `dll_names`, and the result is that name as requested.  For an
/// ONNX Runtime package (`lib_dir_only`) only `.dll` entries under a `/lib/` folder count.
pub open spec fn archive_target(entry: Seq<char>, names: Seq<Seq<char>>, lib_dir_only: bool) -> Option<Seq<char>> {
    let n = slashed(entry);
    if lib_dir_only && !(contains_at_some(n, "/lib/"@) && ends_with(n, ".dll"@)) {
        None
    } else if first_target_from(names, base_name(n), 0) < names.len() {
        Some(names[first_target_from(names, base_name(n), 0)])
    } else {
        None
    }
}

pub open spec fn str_views(v: Seq<&str>) -> Seq<Seq<char>> {
    v.map_values(|s: &str| s@)
}

pub fn archive_dll_target(entry_name: &str, dll_names: &Vec<&str>, lib_dir_only: bool) -> (r: Option<String>)
    ensures
        match r {
            Some(t) => archive_target(entry_name@, str_views(dll_names@), lib_dir_only) == Some(t@),
            None => archive_target(entry_name@, str_views(dll_names@), lib_dir_only) is None,
        },
{
    let raw = chars_of(entry_name);
    let mut v: Vec<char> = Vec::new();
    let mut i: usize = 0;
    while i < raw.len()
        invariant
            i <= raw.len(),
            raw@ == entry_name@,
            v@ == slashed(entry_name@).take(i as int),
        decreases raw.len() - i,
    {
        let c = if raw[i] == '\\' { '/' } else { raw[i] };
        v.push(c);
        assert(slashed(entry_name@).take(i + 1) =~= slashed(entry_name@).take(i as int).push(c));
        i = i + 1;
    }
    assert(slashed(entry_name@).take(raw.len() as int) =~= slashed(entry_name@));
    let n = string_from_chars(&v);
    if lib_dir_only && !(contains_str(n.as_str(), "/lib/") && ends_with_str(n.as_str(), ".dll")) {
        return None;
    }
    let mut k: usize = v.len();
    while k > 0 && v[k - 1] != '/'
        invariant
            k <= v.len(),
            v@ == slashed(entry_name@),
            last_slash_before(v@, v.len() as int) == last_slash_before(v@, k as int),
        decreases k,
    {
        k = k - 1;
    }
    proof {
        lemma_last_slash(v@, v.len() as int);
    }
    let base = string_from_range(&v, k, v.len());
    let base_lower = lower_str(base.as_str());
    let ghost names = str_views(dll_names@);
    let mut j: usize = 0;
    while j < dll_names.len()
        invariant
            j <= dll_names.len(),
            names == str_views(dll_names@),
            base@ == base_name(slashed(entry_name@)),
            base_lower@ == lower(base@),
            first_target_from(names, base@, 0) == first_target_from(names, base@, j as int),
            !(lib_dir_only && !(contains_at_some(slashed(entry_name@), "/lib/"@) && ends_with(
                slashed(entry_name@),
                ".dll"@,
            ))),
        decreases dll_names.len() - j,
    {
        let cand = lower_str(dll_names[j]);
        assert(names[j as int] == dll_names@[j as int]@);
        if str_eq(cand.as_str(), base_lower.as_str()) {
            assert(first_target_from(names, base@, j as int) == j);
            return Some(to_owned_string(dll_names[j]));
        }
        j = j + 1;
    }
    None
}

/// The requested DLLs that no archive entry installed, in request order.
pub open spec fn unwritten_names(names: Seq<Seq<char>>, written: Seq<String>) -> Seq<Seq<char>>
    decreases names.len(),
{
    if names.len() == 0 {
        Seq::empty()
    } else {
        let rest = unwritten_names(names.drop_last(), written);
        if vec_has(written, names.last()) {
            rest
        } else {
            rest.push(names.last())
        }
    }
}

pub fn missing_dlls(dll_names: &Vec<&str>, written: &Vec<String>) -> (r: Vec<String>)
    ensures
        views(r@) == unwritten_names(str_views(dll_names@), written@),
{
    let mut out: Vec<String> = Vec::new();
    let mut i: usize = 0;
    while i < dll_names.len()
        invariant
            i <= dll_names.len(),
            views(out@) == unwritten_names(str_views(dll_names@).take(i as int), written@),
        decreases dll_names.len() - i,
    {
        let ghost prev = views(out@);
        assert(str_views(dll_names@).take(i + 1).drop_last() =~= str_views(dll_names@).take(i as int));
        assert(str_views(dll_names@).take(i + 1).last() == dll_names@[i as int]@);
        if !vec_contains_str(written, dll_names[i]) {
            out.push(to_owned_string(dll_names[i]));
            assert(views(out@) =~= prev.push(dll_names@[i as int]@));
        }
        i = i + 1;
    }
    assert(str_views(dll_names@).take(dll_names.len() as int) =~= str_views(dll_names@));
    out
}

/// Name of the sibling a locked directory is renamed to for deferred removal.
pub fn pending_delete_name(file_name: Option<&str>) -> (r: String)
    ensures
        r@ == match file_name {
            Some(n) => n@,
            None => "runtime"@,
        } + ".pending_delete"@,
{
    let mut out = match file_name {
        Some(n) => to_owned_string(n),
        None => to_owned_string("runtime"),
    };
    append_str(&mut out, ".pending_delete");
    out
}

/// The ONNX Runtime package a DLL path points into.
#[derive(Debug, PartialEq, Eq, Structural, Clone, Copy)]
pub enum OrtPackage {
    Cpu,
    Gpu,
}

impl OrtPackage {
    /// Directory of the package under the runtime root.
    pub fn subdir(self) -> (r: &'static str)
        ensures
            r@ == match self {
                OrtPackage::Cpu => "cpu"@,
                OrtPackage::Gpu => "gpu"@,
            },
    {
        match self {
            OrtPackage::Cpu => "cpu",
            OrtPackage::Gpu => "gpu",
        }
    }
}

/// The installed package to load: the GPU build when complete (it includes the CUDA EP and
/// still serves CPU), else the CPU build, else none.
pub fn preferred_ort_dll(env: &LocalAsrEnvCheck) -> (r: Option<OrtPackage>)
    ensures
        r == if env.ort_gpu.ok {
            Some(OrtPackage::Gpu)
        } else if env.ort_cpu.ok {
            Some(OrtPackage::Cpu)
        } else {
            None
        },
{
    if env.ort_gpu.ok {
        Some(OrtPackage::Gpu)
    } else if env.ort_cpu.ok {
        Some(OrtPackage::Cpu)
    } else {
        None
    }
}

/// `provider` names the CUDA execution provider (ASCII case ignored).
pub open spec fn is_cuda_provider(provider: Seq<char>) -> bool {
    lower(provider) == cuda_ep()
}

fn eq_ignore_case_cuda(provider: &str) -> (r: bool)
    ensures
        r == is_cuda_provider(provider@),
{
    let l = lower_str(provider);
    proof {
        reveal_strlit("cuda");
    }
    str_eq(l.as_str(), "cuda")
}

/// The package whose DLL is loaded for `provider`: the preferred installed one, else the
/// one the provider needs.
pub fn ort_dll_path_for_provider(env: &LocalAsrEnvCheck, provider: &str) -> (r: OrtPackage)
    ensures
        r == match (if env.ort_gpu.ok {
            Some(OrtPackage::Gpu)
        } else if env.ort_cpu.ok {
            Some(OrtPackage::Cpu)
        } else {
            None
        }) {
            Some(p) => p,
            None => if is_cuda_provider(provider@) {
                OrtPackage::Gpu
            } else {
                OrtPackage::Cpu
            },
        },
{
    match preferred_ort_dll(env) {
        Some(p) => p,
        None => if eq_ignore_case_cuda(provider) {
            OrtPackage::Gpu
        } else {
            OrtPackage::Cpu
        },
    }
}

/// The provider check: `Ok` exactly when the dependencies that `provider` needs are in
/// place, else the first gap found, in the order VC++ runtime, CUDA Toolkit, CUDA runtime,
/// GPU ONNX Runtime (for CUDA) or any ONNX Runtime (for CPU).
pub open spec fn deps_check(check: LocalAsrEnvCheck, provider: Seq<char>) -> Result<(), Seq<char>> {
    if !check.vcruntime.ok {
        Err("VC++ runtime missing: "@ + join(views(check.vcruntime.missing@), ", "@))
    } else if is_cuda_provider(provider) {
        if !check.cuda_toolkit.ok {
            Err(match check.cuda_toolkit.message {
                Some(m) => m@,
                None => "CUDA Toolkit 13 missing"@,
            })
        } else if !check.cuda_redist.ok {
            Err("CUDA runtime missing: "@ + join(views(check.cuda_redist.missing@), ", "@))
        } else if !check.ort_gpu.ok {
            Err("ONNX Runtime (GPU / CUDA EP) incomplete: "@ + join(views(check.ort_gpu.missing@), ", "@))
        } else {
            Ok(())
        }
    } else if !check.ort_cpu.ok && !check.ort_gpu.ok {
        Err("ONNX Runtime is not installed (download CPU or GPU package)"@)
    } else {
        Ok(())
    }
}

fn prefixed_list(prefix: &str, items: &Vec<String>) -> (r: String)
    ensures
        r@ == prefix@ + join(views(items@), ", "@),
{
    let mut out = to_owned_string(prefix);
    let list = crate::text::join_strings(items, ", ");
    append_str(&mut out, list.as_str());
    out
}

pub fn validate_deps_for_provider(check: &LocalAsrEnvCheck, provider: &str) -> (r: Result<(), DepError>)
    ensures
        match r {
            Ok(()) => deps_check(*check, provider@) is Ok,
            Err(DepError::Check(m)) => deps_check(*check, provider@) == Err::<(), Seq<char>>(m@),
            Err(_) => false,
        },
{
    proof {
        reveal_strlit("CUDA Toolkit 13 missing");
        reveal_strlit("ONNX Runtime is not installed (download CPU or GPU package)");
    }
    if !check.vcruntime.ok {
        return Err(DepError::Check(prefixed_list("VC++ runtime missing: ", &check.vcruntime.missing)));
    }
    if eq_ignore_case_cuda(provider) {
        if !check.cuda_toolkit.ok {
            let m = match &check.cuda_toolkit.message {
                Some(m) => m.clone(),
                None => to_owned_string("CUDA Toolkit 13 missing"),
            };
            return Err(DepError::Check(m));
        }
        if !check.cuda_redist.ok {
            return Err(DepError::Check(prefixed_list("CUDA runtime missing: ", &check.cuda_redist.missing)));
        }
        if !check.ort_gpu.ok {
            return Err(
                DepError::Check(
                    prefixed_list("ONNX Runtime (GPU / CUDA EP) incomplete: ", &check.ort_gpu.missing),
                ),
            );
        }
    } else if !check.ort_cpu.ok && !check.ort_gpu.ok {
        return Err(DepError::Check(to_owned_string("ONNX Runtime is not installed (download CPU or GPU package)")));
    }
    Ok(())
}

} // verus!
