//! The command facade: the verbs a caller invokes. Each verb turns intent
//! plus a few facts about the world (a clock reading, whether the model
//! directory has files, where the app's data lives) into the exact protocol
//! line to write, together with the correlation id handed back to the caller.
//!
//! The facade is fire-and-forget: outcomes arrive later on the event bus.
//! The only synchronous failures are the ones below, returned as typed
//! errors.

use vstd::prelude::*;

use crate::codec::{cancel_line_seq, download_cancel_line_seq, download_line_seq,
    encode_cancel, encode_download, encode_download_cancel, encode_generate, generate_line_seq,
    opt_str_view};
use crate::ids::{generate_id, id_seq};
use crate::sanitize::{model_local_dir, sanitize_seq};
use crate::text::{chars_to_string, push_str_chars};

verus! {

/// The synchronous failures of the facade and of the host around it.
#[derive(Clone, Copy, Debug, PartialEq, Eq, Structural)]
pub enum FacadeError {
    /// The worker entry-point script exists in neither location.
    NotFound,
    /// The operating system refused to launch the worker.
    SpawnFailed,
    /// A send was attempted with no live input stream.
    NotRunning,
    /// An I/O error during a send; the stream is presumed broken but is not
    /// proactively torn down.
    WriteFailed,
    /// A generation was requested before the model was downloaded.
    ModelNotLocal,
}

/// A generation accepted for dispatch: the id returned to the caller and the
/// protocol line to write.
pub struct GenerationStart {
    pub generation_id: String,
    pub line: String,
}

/// A download accepted for dispatch: the id and destination returned to the
/// caller and the protocol line to write.
pub struct DownloadStart {
    pub download_id: String,
    pub local_dir: String,
    pub line: String,
}

/// The default token budget of a generation.
pub open spec fn tokens_or_default(max_new_tokens: Option<u32>) -> u32 {
    match max_new_tokens {
        Option::None => 256,
        Option::Some(t) => t,
    }
}

/// The default sampling temperature, in thousandths.
pub open spec fn temperature_or_default(temperature_milli: Option<u32>) -> u32 {
    match temperature_milli {
        Option::None => 200,
        Option::Some(t) => t,
    }
}

/// Builds a `generate` command against an already-resolved model directory.
///
/// The caller reports whether that directory exists and holds at least one
/// entry; when it does not, the command is refused before any message is
/// built — a generation never triggers an implicit download. When it does,
/// the returned id is derived from the clock reading and the returned line
/// is exactly the `generate` message carrying that id.
pub fn chat_generate(
    model_dir: &str,
    prompt: &str,
    max_new_tokens: Option<u32>,
    temperature_milli: Option<u32>,
    model_dir_has_files: bool,
    now_millis: u64,
    subsec_nanos: u32,
) -> (r: Result<GenerationStart, FacadeError>)
    ensures
        !model_dir_has_files ==> r == Result::<GenerationStart, FacadeError>::Err(
            FacadeError::ModelNotLocal,
        ),
        model_dir_has_files ==> (r matches Result::Ok(g) && g.generation_id@ == id_seq(
            now_millis,
            subsec_nanos,
        ) && g.generation_id@.len() > 0 && g.line@ == generate_line_seq(
            id_seq(now_millis, subsec_nanos),
            model_dir@,
            prompt@,
            tokens_or_default(max_new_tokens),
            temperature_or_default(temperature_milli),
        )),
{
    if !model_dir_has_files {
        return Result::Err(FacadeError::ModelNotLocal);
    }
    let generation_id = generate_id(now_millis, subsec_nanos);
    let tokens = match max_new_tokens {
        Option::None => 256u32,
        Option::Some(t) => t,
    };
    let temperature = match temperature_milli {
        Option::None => 200u32,
        Option::Some(t) => t,
    };
    let line = encode_generate(generation_id.as_str(), model_dir, prompt, tokens, temperature);
    Result::Ok(GenerationStart { generation_id, line })
}

/// Builds a `cancel` command. Cancellation is best effort: the caller sends
/// the line if a worker is live and silently succeeds otherwise.
pub fn chat_cancel(generation_id: &str) -> (r: String)
    ensures
        r@ == cancel_line_seq(generation_id@),
{
    encode_cancel(generation_id)
}

/// Builds a `download` command: the destination directory is derived from
/// the sanitized repository identifier under the models root, the id from
/// the clock reading, and the returned line is exactly the `download`
/// message carrying both.
pub fn model_download_start(
    repo_id: &str,
    revision: Option<&str>,
    token: Option<&str>,
    base_dir: &str,
    now_millis: u64,
    subsec_nanos: u32,
) -> (r: DownloadStart)
    ensures
        r.download_id@ == id_seq(now_millis, subsec_nanos),
        r.download_id@.len() > 0,
        r.local_dir@ == base_dir@ + "/models/"@ + sanitize_seq(repo_id@),
        r.line@ == download_line_seq(
            id_seq(now_millis, subsec_nanos),
            repo_id@,
            opt_str_view(revision),
            r.local_dir@,
            opt_str_view(token),
        ),
{
    let download_id = generate_id(now_millis, subsec_nanos);
    let local_dir = model_local_dir(base_dir, repo_id);
    let line = encode_download(
        download_id.as_str(),
        repo_id,
        revision,
        local_dir.as_str(),
        token,
    );
    DownloadStart { download_id, local_dir, line }
}

/// Builds a `download_cancel` command; best effort, like `chat_cancel`.
pub fn model_download_cancel(download_id: &str) -> (r: String)
    ensures
        r@ == download_cancel_line_seq(download_id@),
{
    encode_download_cancel(download_id)
}

/// Chooses the worker entry-point script: the development-tree path when it
/// exists on disk, otherwise the packaged-resource path; when no resource
/// directory can be resolved either, the worker cannot be found.
pub fn choose_runner_script(dev_path: &str, dev_path_exists: bool, resource_dir: Option<&str>) -> (r:
    Result<String, FacadeError>)
    ensures
        dev_path_exists ==> (r matches Result::Ok(p) && p@ == dev_path@),
        !dev_path_exists && resource_dir is None ==> r == Result::<String, FacadeError>::Err(
            FacadeError::NotFound,
        ),
        !dev_path_exists ==> (resource_dir matches Option::Some(d) ==> (r matches Result::Ok(p)
            && p@ == d@ + "/py/cerebro_runner.py"@)),
{
    if dev_path_exists {
        let mut out: Vec<char> = Vec::new();
        push_str_chars(&mut out, dev_path);
        Result::Ok(chars_to_string(out))
    } else {
        match resource_dir {
            Option::None => Result::Err(FacadeError::NotFound),
            Option::Some(d) => {
                let mut out: Vec<char> = Vec::new();
                push_str_chars(&mut out, d);
                push_str_chars(&mut out, "/py/cerebro_runner.py");
                Result::Ok(chars_to_string(out))
            },
        }
    }
}

} // verus!
