//! The embedded asset store: the byte content of the two shipped VMAF
//! models, available without any filesystem access.
//!
//! Each model ships as two payloads: the primary model definition, which
//! is handed to the native library as a file, and a secondary companion
//! payload that the native library looks up beside the primary file under
//! a fixed naming convention (the primary file name with `.model`
//! appended).

use vstd::prelude::*;

verus! {

/// The closed set of shipped models: the `default` model and the `4K`
/// model. Requests for a model are rejected at the type level; there is
/// no runtime name validation.
#[derive(Clone, Copy, PartialEq, Eq, Structural, Debug)]
pub enum ModelName {
    Default,
    FourK,
}

/// The primary payload of the `default` model, as embedded in this crate.
pub open spec fn default_primary_spec() -> Seq<char> {
    "svm_type nu_svr\nkernel_type rbf\ngamma 0.04\nnr_class 2\ntotal_sv 211\nrho -1.299\nmodel vmaf_v0.6.1\n"@
}

/// The secondary payload of the `default` model, as embedded in this crate.
pub open spec fn default_secondary_spec() -> Seq<char> {
    "model_type LIBSVM_NUSVR\nfeature_normalization linear_rescale\nscore_clip 0.0 100.0\nfor vmaf_v0.6.1\n"@
}

/// The primary payload of the `4K` model, as embedded in this crate.
pub open spec fn four_k_primary_spec() -> Seq<char> {
    "svm_type nu_svr\nkernel_type rbf\ngamma 0.05\nnr_class 2\ntotal_sv 274\nrho -0.762\nmodel vmaf_4k_v0.6.1\n"@
}

/// The secondary payload of the `4K` model, as embedded in this crate.
pub open spec fn four_k_secondary_spec() -> Seq<char> {
    "model_type LIBSVM_NUSVR\nfeature_normalization linear_rescale\nscore_clip 0.0 100.0\nfor vmaf_4k_v0.6.1\n"@
}

/// The primary payload of a model, by name.
pub open spec fn primary_payload_spec(name: ModelName) -> Seq<char> {
    match name {
        ModelName::Default => default_primary_spec(),
        ModelName::FourK => four_k_primary_spec(),
    }
}

/// The secondary payload of a model, by name.
pub open spec fn secondary_payload_spec(name: ModelName) -> Seq<char> {
    match name {
        ModelName::Default => default_secondary_spec(),
        ModelName::FourK => four_k_secondary_spec(),
    }
}

/// Returns the contents of the VMAF `default` model that this crate was
/// built with: the primary model definition first, then the secondary
/// companion payload that the native library expects to find beside it
/// under the primary file name with `.model` appended.
pub fn get_vmaf_def_model() -> (r: (&'static str, &'static str))
    ensures
        r.0@ == default_primary_spec(),
        r.1@ == default_secondary_spec(),
{
    let x = "svm_type nu_svr\nkernel_type rbf\ngamma 0.04\nnr_class 2\ntotal_sv 211\nrho -1.299\nmodel vmaf_v0.6.1\n";
    let y = "model_type LIBSVM_NUSVR\nfeature_normalization linear_rescale\nscore_clip 0.0 100.0\nfor vmaf_v0.6.1\n";
    (x, y)
}

/// Returns the contents of the VMAF `4K` model that this crate was built
/// with: the primary model definition first, then the secondary companion
/// payload that the native library expects to find beside it under the
/// primary file name with `.model` appended.
pub fn get_vmaf_4k_model() -> (r: (&'static str, &'static str))
    ensures
        r.0@ == four_k_primary_spec(),
        r.1@ == four_k_secondary_spec(),
{
    let x = "svm_type nu_svr\nkernel_type rbf\ngamma 0.05\nnr_class 2\ntotal_sv 274\nrho -0.762\nmodel vmaf_4k_v0.6.1\n";
    let y = "model_type LIBSVM_NUSVR\nfeature_normalization linear_rescale\nscore_clip 0.0 100.0\nfor vmaf_4k_v0.6.1\n";
    (x, y)
}

/// Returns the two payloads of the named model: the primary model
/// definition and the secondary companion payload. Total over the closed
/// set of shipped models; a missing payload is a build failure, never a
/// runtime error.
pub fn get_asset(name: ModelName) -> (r: (&'static str, &'static str))
    ensures
        r.0@ == primary_payload_spec(name),
        r.1@ == secondary_payload_spec(name),
{
    match name {
        ModelName::Default => get_vmaf_def_model(),
        ModelName::FourK => get_vmaf_4k_model(),
    }
}

} // verus!
