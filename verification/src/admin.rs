//! The server's administrative requests (`POST /set_model`, `POST
//! /restart`): bearer-key authorisation, the answers, and where models are
//! fetched from and stored.
use vstd::prelude::*;
use crate::text::{concat2, concat3, owned, str_equals};

verus! {

/// The body of `POST /set_model`.
pub struct SetModelRequest {
    pub model: String,
}

/// The answer of `POST /set_model`.
pub struct SetModelResponse {
    pub status: String,
    pub loaded_model: String,
}

/// The answer of `POST /restart`.
pub struct RestartResponse {
    pub status: String,
    pub message: String,
}

/// The verdict on an administrative request.
#[derive(Clone, Copy, Debug, PartialEq, Eq, Structural)]
pub enum Authorization {
    /// The server has no admin key, so nothing is authorised.
    NotConfigured,
    /// The `Authorization` header is missing or does not carry the key.
    Unauthorized,
    Authorized,
}

/// The header value that carries `key`.
pub open spec fn bearer(key: Seq<char>) -> Seq<char> {
    "Bearer "@ + key
}

/// The verdict for the server's key `expected` and the request's
/// `Authorization` header.
pub open spec fn authorization(expected: Option<Seq<char>>, header: Option<Seq<char>>) -> Authorization {
    match expected {
        None => Authorization::NotConfigured,
        Some(k) => if header == Some(bearer(k)) {
            Authorization::Authorized
        } else {
            Authorization::Unauthorized
        },
    }
}

/// Judges an administrative request: authorised exactly when the server has
/// a key and the header is `Bearer ` followed by it.
pub fn authorize(expected: &Option<String>, header: &Option<String>) -> (a: Authorization)
    ensures
        a == authorization(crate::text::opt_chars(*expected), crate::text::opt_chars(*header)),
{
    match expected {
        None => Authorization::NotConfigured,
        Some(k) => {
            let want = concat2("Bearer ", k.as_str());
            match header {
                Some(h) => if str_equals(h.as_str(), want.as_str()) {
                    Authorization::Authorized
                } else {
                    Authorization::Unauthorized
                },
                None => Authorization::Unauthorized,
            }
        },
    }
}

// ---------------------------------------------------------------------------
// POST /set_model
// ---------------------------------------------------------------------------

pub open spec fn reply_is(r: Option<SetModelResponse>, status: Seq<char>, loaded: Seq<char>) -> bool {
    r matches Some(x) && x.status@ == status && x.loaded_model@ == loaded
}

/// The first step of `POST /set_model`: a request that is not authorised is
/// answered at once (`Some`), and nothing is fetched or loaded for it; an
/// authorised one goes on to fetch the model (`None`).
pub fn set_model_start(expected: &Option<String>, header: &Option<String>) -> (r: Option<
    SetModelResponse,
>)
    ensures
        match authorization(crate::text::opt_chars(*expected), crate::text::opt_chars(*header)) {
            Authorization::NotConfigured => reply_is(
                r,
                "error: ADMIN_API_KEY not configured on server"@,
                Seq::<char>::empty(),
            ),
            Authorization::Unauthorized => reply_is(
                r,
                "error: Unauthorized"@,
                Seq::<char>::empty(),
            ),
            Authorization::Authorized => r is None,
        },
{
    match authorize(expected, header) {
        Authorization::NotConfigured => Some(
            SetModelResponse {
                status: owned("error: ADMIN_API_KEY not configured on server"),
                loaded_model: String::new(),
            },
        ),
        Authorization::Unauthorized => Some(
            SetModelResponse { status: owned("error: Unauthorized"), loaded_model: String::new() },
        ),
        Authorization::Authorized => None,
    }
}

/// The step after fetching: a failed fetch is answered with its error
/// (`Some`); otherwise the model is loaded next (`None`).
pub fn set_model_downloaded(result: Result<(), String>) -> (r: Option<SetModelResponse>)
    ensures
        match result {
            Ok(_) => r is None,
            Err(e) => reply_is(r, "error downloading model: "@ + e@, Seq::<char>::empty()),
        },
{
    match result {
        Ok(_) => None,
        Err(e) => Some(
            SetModelResponse {
                status: concat2("error downloading model: ", e.as_str()),
                loaded_model: String::new(),
            },
        ),
    }
}

/// The answer once the worker has tried to load `model`: `success` with the
/// model's name, or the worker's error.
pub fn set_model_loaded(model: &str, result: Result<(), String>) -> (r: SetModelResponse)
    ensures
        match result {
            Ok(_) => r.status@ == "success"@ && r.loaded_model@ == model@,
            Err(e) => r.status@ == "error loading model into VRAM: "@ + e@ && r.loaded_model@
                == Seq::<char>::empty(),
        },
{
    match result {
        Ok(_) => SetModelResponse { status: owned("success"), loaded_model: owned(model) },
        Err(e) => SetModelResponse {
            status: concat2("error loading model into VRAM: ", e.as_str()),
            loaded_model: String::new(),
        },
    }
}

// ---------------------------------------------------------------------------
// POST /restart
// ---------------------------------------------------------------------------

/// The answer of `POST /restart`, and whether the server is to exit so that
/// its service manager restarts it (only for an authorised request).
pub fn restart_decision(expected: &Option<String>, header: &Option<String>) -> (r: (
    RestartResponse,
    bool,
))
    ensures
        r.1 == (authorization(crate::text::opt_chars(*expected), crate::text::opt_chars(*header))
            == Authorization::Authorized),
        match authorization(crate::text::opt_chars(*expected), crate::text::opt_chars(*header)) {
            Authorization::NotConfigured => r.0.status@ == "error"@ && r.0.message@
                == "ADMIN_API_KEY not configured on server"@,
            Authorization::Unauthorized => r.0.status@ == "error"@ && r.0.message@
                == "Unauthorized"@,
            Authorization::Authorized => r.0.status@ == "restarting"@ && r.0.message@
                == "Server service restart initiated."@,
        },
{
    match authorize(expected, header) {
        Authorization::NotConfigured => (
            RestartResponse {
                status: owned("error"),
                message: owned("ADMIN_API_KEY not configured on server"),
            },
            false,
        ),
        Authorization::Unauthorized => (
            RestartResponse { status: owned("error"), message: owned("Unauthorized") },
            false,
        ),
        Authorization::Authorized => (
            RestartResponse {
                status: owned("restarting"),
                message: owned("Server service restart initiated."),
            },
            true,
        ),
    }
}

/// An administrative request goes through exactly when the server has a key
/// and the request carries `Bearer ` followed by that key; any other request
/// is refused, and a server without a key refuses every one.
pub proof fn law_only_the_key_authorizes(expected: Option<Seq<char>>, header: Option<Seq<char>>)
    ensures
        authorization(expected, header) == Authorization::Authorized <==> (expected is Some
            && header == Some(bearer(expected->0))),
        expected is None ==> authorization(expected, header) == Authorization::NotConfigured,
{
}

// ---------------------------------------------------------------------------
// Model files
// ---------------------------------------------------------------------------

/// Where a model's weights are fetched from.
pub open spec fn model_url(model: Seq<char>) -> Seq<char> {
    "https://huggingface.co/ggerganov/whisper.cpp/resolve/main/ggml-"@ + model + ".bin"@
}

/// The address of a model's weights.
pub fn model_download_url(model: &str) -> (u: String)
    ensures
        u@ == model_url(model@),
{
    concat3("https://huggingface.co/ggerganov/whisper.cpp/resolve/main/ggml-", model, ".bin")
}

/// The file name of a model in the model directory, with the extension
/// `ext` (`gguf` or `bin`).
pub fn model_file_name(model: &str, ext: &str) -> (f: String)
    ensures
        f@ == model@ + "."@ + ext@,
{
    concat3(model, ".", ext)
}

/// Whether a model's file has to be fetched: only when it is not on disk.
pub fn download_needed(file_exists: bool) -> (r: bool)
    ensures
        r == !file_exists,
{
    !file_exists
}

/// The error for a fetch that the server answered with an HTTP error
/// status.
pub fn http_error_message(status: &str) -> (m: String)
    ensures
        m@ == "HTTP error: "@ + status@,
{
    concat2("HTTP error: ", status)
}

/// Which file of a model the engine loads.
#[derive(Clone, Copy, Debug, PartialEq, Eq, Structural)]
pub enum ModelFile {
    Gguf,
    Bin,
}

/// The `.gguf` file when it exists, else the `.bin` file when it exists;
/// `None` when neither does.
pub fn model_file_to_load(gguf_exists: bool, bin_exists: bool) -> (f: Option<ModelFile>)
    ensures
        f == (if gguf_exists {
            Some(ModelFile::Gguf)
        } else if bin_exists {
            Some(ModelFile::Bin)
        } else {
            None
        }),
{
    if gguf_exists {
        Some(ModelFile::Gguf)
    } else if bin_exists {
        Some(ModelFile::Bin)
    } else {
        None
    }
}

} // verus!
