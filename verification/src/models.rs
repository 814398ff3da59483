//! Whisper model files: their names, where they live, whether one is
//! present, and download bookkeeping.
//!
//! A model named `small` is the file `ggml-small.bin` in the models
//! directory, fetched from the whisper.cpp repository on Hugging Face.

use vstd::prelude::*;

use crate::config::{config_error_message, is_program_models_dir, models_dir, ConfigError};
use crate::text::{has_prefix, has_suffix, join_path, join_spec, str_eq, sub_chars};

verus! {

/// Where ggml models are downloaded from.
pub open spec fn base_url() -> Seq<char> {
    "https://huggingface.co/ggerganov/whisper.cpp/resolve/main"@
}

/// The file name of the model called `name`: `ggml-{name}.bin`.
pub open spec fn model_file_name_spec(name: Seq<char>) -> Seq<char> {
    "ggml-"@ + name + ".bin"@
}

/// The file name of the model called `name`: `ggml-{name}.bin`.
pub fn model_file_name(name: &str) -> (r: String)
    ensures
        r@ == model_file_name_spec(name@),
{
    let mut r = String::from_str("ggml-");
    r.append(name);
    r.append(".bin");
    r
}

/// The address a model is downloaded from: `{BASE_URL}/ggml-{name}.bin`.
pub fn download_url(name: &str) -> (r: String)
    ensures
        r@ == base_url() + "/"@ + model_file_name_spec(name@),
{
    let mut r = String::from_str("https://huggingface.co/ggerganov/whisper.cpp/resolve/main");
    r.append("/");
    let file = model_file_name(name);
    r.append(file.as_str());
    r
}

/// Why a model cannot be used.
#[derive(Debug, Clone)]
pub enum ModelError {
    /// The user's directories could not be resolved.
    Config(ConfigError),
    /// The model was never downloaded: no file at `path`.
    NotFound { name: String, path: String },
}

/// The message shown for a model error; for a missing model it tells how
/// to download it.
pub open spec fn model_error_message(e: ModelError) -> Seq<char> {
    match e {
        ModelError::Config(c) => config_error_message(c),
        ModelError::NotFound { name, path } => "modelo '"@ + name@ + "' não encontrado em "@ + path@
            + ".\nBaixe com: quickwhisper model download "@ + name@,
    }
}

impl ModelError {
    /// The message shown to the user.
    pub fn message(&self) -> (r: String)
        ensures
            r@ == model_error_message(*self),
    {
        match self {
            ModelError::Config(c) => c.message(),
            ModelError::NotFound { name, path } => {
                let mut r = String::from_str("modelo '");
                r.append(name.as_str());
                r.append("' não encontrado em ");
                r.append(path.as_str());
                r.append(".\nBaixe com: quickwhisper model download ");
                r.append(name.as_str());
                r
            },
        }
    }
}

/// The file of the model called `name` in the given models directory.
pub open spec fn model_path_spec(models_dir: Seq<char>, name: Seq<char>) -> Seq<char> {
    join_spec(models_dir, model_file_name_spec(name))
}

/// Whether `p` is the file of the model called `name` in the program's
/// models directory.
pub open spec fn is_program_model_path(p: Seq<char>, name: Seq<char>) -> bool {
    exists|m: Seq<char>| is_program_models_dir(m) && p == model_path_spec(m, name)
}

/// The file of the model called `name` in the models directory `models_dir`.
pub fn model_path_in(models_dir: &str, name: &str) -> (r: String)
    ensures
        r@ == model_path_spec(models_dir@, name@),
{
    let file = model_file_name(name);
    join_path(models_dir, file.as_str())
}

/// Where the model called `name` is kept: its file in the program's models
/// directory.
pub fn model_path(name: &str) -> (r: Result<String, ConfigError>)
    ensures
        r matches Ok(p) ==> is_program_model_path(p@, name@),
        r matches Err(e) ==> e is NoHomeDirectory || e is NonUtf8Path,
{
    let dir = models_dir()?;
    let p = model_path_in(dir.as_str(), name);
    assert(is_program_models_dir(dir@) && p@ == model_path_spec(dir@, name@));
    Ok(p)
}

/// `std::path::Path::exists`: whether a file is at `path` right now. It
/// rests on what is on disk, so nothing is stated of the result.
#[verifier::external_body]
fn path_exists(path: &str) -> bool {
    std::path::Path::new(path).exists()
}

/// The verdict on a model file found (`present`) or not at `path`: the
/// path where it is there, `NotFound` naming the model and the path where
/// it is not.
pub fn check_model_present(name: &str, path: String, present: bool) -> (r: Result<
    String,
    ModelError,
>)
    ensures
        present ==> (r matches Ok(p) && p@ == path@),
        !present ==> (r matches Err(ModelError::NotFound { name: n, path: p }) && n@ == name@
            && p@ == path@),
{
    if present {
        Ok(path)
    } else {
        Err(ModelError::NotFound { name: String::from_str(name), path })
    }
}

/// The model's path, failing with `NotFound` (naming the model and the
/// path) when it was never downloaded.
pub fn require(name: &str) -> (r: Result<String, ModelError>)
    ensures
        r matches Ok(p) ==> is_program_model_path(p@, name@),
        r matches Err(ModelError::NotFound { name: n, path: p }) ==> n@ == name@
            && is_program_model_path(p@, name@),
        r matches Err(ModelError::Config(e)) ==> e is NoHomeDirectory || e is NonUtf8Path,
{
    let path = match model_path(name) {
        Ok(p) => p,
        Err(e) => {
            return Err(ModelError::Config(e));
        },
    };
    let present = path_exists(path.as_str());
    check_model_present(name, path, present)
}

/// Whether a model's file is there, with its path.
#[derive(Debug, Clone)]
pub enum ModelLocation {
    /// The model is downloaded: ready to load from `path`.
    Present { path: String },
    /// The model is missing: it is to be downloaded to `path`.
    Absent { path: String },
}

/// The verdict on a model file found (`present`) or not at `path`.
pub fn model_location(path: String, present: bool) -> (r: ModelLocation)
    ensures
        present ==> (r matches ModelLocation::Present { path: p } && p@ == path@),
        !present ==> (r matches ModelLocation::Absent { path: p } && p@ == path@),
{
    if present {
        ModelLocation::Present { path }
    } else {
        ModelLocation::Absent { path }
    }
}

/// Where the model called `name` is and whether it is there yet: what
/// decides between loading it and downloading it first.
pub fn locate_model(name: &str) -> (r: Result<ModelLocation, ConfigError>)
    ensures
        r matches Ok(ModelLocation::Present { path: p }) ==> is_program_model_path(p@, name@),
        r matches Ok(ModelLocation::Absent { path: p }) ==> is_program_model_path(p@, name@),
        r matches Err(e) ==> e is NoHomeDirectory || e is NonUtf8Path,
{
    let path = model_path(name)?;
    let present = path_exists(path.as_str());
    Ok(model_location(path, present))
}

/// The model name a file in the models directory holds: for
/// `ggml-{name}.bin` the `{name}`; `None` for any other file.
pub open spec fn model_name_of_file(file: Seq<char>) -> Option<Seq<char>> {
    if file.len() >= 9 && file.subrange(0, 5) == "ggml-"@ && file.subrange(
        file.len() - 4,
        file.len() as int,
    ) == ".bin"@ {
        Some(file.subrange(5, file.len() - 4))
    } else {
        None
    }
}

/// The model name a file in the models directory holds, if it is a model.
pub fn model_name_from_file(file: &str) -> (r: Option<String>)
    ensures
        match model_name_of_file(file@) {
            Some(n) => r matches Some(s) && s@ == n,
            None => r is None,
        },
{
    proof {
        reveal_strlit("ggml-");
        reveal_strlit(".bin");
    }
    let n = file.unicode_len();
    if has_prefix(file, "ggml-") && has_suffix(file, ".bin") {
        if n < 9 {
            return None;
        }
        Some(sub_chars(file, 5, n - 4))
    } else {
        None
    }
}

/// A model's file name gives back the model's name.
pub proof fn lemma_model_file_name_roundtrip(name: Seq<char>)
    ensures
        model_name_of_file(model_file_name_spec(name)) == Some(name),
{
    reveal_strlit("ggml-");
    reveal_strlit(".bin");
    let f = model_file_name_spec(name);
    assert(f.subrange(0, 5) =~= "ggml-"@);
    assert(f.subrange(f.len() - 4, f.len() as int) =~= ".bin"@);
    assert(f.subrange(5, f.len() - 4) =~= name);
}

/// Different model names never share a file.
pub proof fn lemma_model_file_name_injective(a: Seq<char>, b: Seq<char>)
    requires
        model_file_name_spec(a) == model_file_name_spec(b),
    ensures
        a == b,
{
    lemma_model_file_name_roundtrip(a);
    lemma_model_file_name_roundtrip(b);
}

/// Whether a path's last component is exactly `.bin`: a name that is all
/// dot-name, with no extension by `Path`'s rules.
pub open spec fn file_name_is_dot_bin(p: Seq<char>) -> bool {
    p == ".bin"@ || (p.len() >= 5 && p.subrange(p.len() - 5, p.len() as int) == "/.bin"@)
}

/// What `Path::with_extension("bin.part")` gives for a path that ends in
/// `.bin`: the `bin` extension becomes `bin.part`; a file named just `.bin`
/// has no extension and gets `.bin.part` put after it.
pub open spec fn partial_download_spec(model_path: Seq<char>) -> Seq<char> {
    if file_name_is_dot_bin(model_path) {
        model_path + ".bin.part"@
    } else {
        model_path + ".part"@
    }
}

/// Where a download is written before it is complete: the model's path
/// with the extension `bin.part` (`with_extension("bin.part")`), so
/// `ggml-{name}.bin.part` beside the model.
pub fn partial_download_path(model_path: &str) -> (r: String)
    requires
        model_path@.len() >= 4,
        model_path@.subrange(model_path@.len() - 4, model_path@.len() as int) == ".bin"@,
    ensures
        r@ == partial_download_spec(model_path@),
{
    proof {
        reveal_strlit("/.bin");
    }
    let mut r = String::from_str(model_path);
    if str_eq(model_path, ".bin") || has_suffix(model_path, "/.bin") {
        r.append(".bin.part");
    } else {
        r.append(".part");
    }
    r
}

/// A download in progress is never taken for a model: its file does not
/// name one.
pub proof fn lemma_partial_download_is_not_a_model(name: Seq<char>)
    ensures
        model_name_of_file(partial_download_spec(model_file_name_spec(name))) is None,
{
    reveal_strlit(".part");
    reveal_strlit(".bin.part");
    reveal_strlit(".bin");
    let f = partial_download_spec(model_file_name_spec(name));
    if f.len() >= 9 {
        assert(f.subrange(f.len() - 4, f.len() as int)[0] == 'p');
    }
}

/// How far a download has come, in whole percent.
pub fn progress_percent(done: u64, total: u64) -> (r: u64)
    requires
        total > 0,
        done * 100 <= u64::MAX,
    ensures
        r == done * 100 / total as int,
{
    done * 100 / total
}

/// Whether a progress line is due: `Some(percent)` when the percentage
/// differs from the one shown last, `None` otherwise.
pub fn progress_update(done: u64, total: u64, last_shown: u64) -> (r: Option<u64>)
    requires
        total > 0,
        done * 100 <= u64::MAX,
    ensures
        r == (if done * 100 / total as int != last_shown {
            Some((done * 100 / total as int) as u64)
        } else {
            None
        }),
{
    let pct = progress_percent(done, total);
    if pct != last_shown {
        Some(pct)
    } else {
        None
    }
}

} // verus!
