//! What the wallet concludes from the statechain entity's answers.

use vstd::prelude::*;
use crate::error::{Error, ServerCode, TransferReceiverError};
use crate::wallet::opt_text;

verus! {

/// The HTTP status of a request that was refused as malformed.
pub const BAD_REQUEST: u16 = 400;

/// The HTTP status of a request that succeeded.
pub const OK: u16 = 200;

/// What came of a receiver's request to take a coin.
#[derive(Clone, Debug, PartialEq, Eq)]
pub struct TransferReceiveRequestResult {
    /// The coin is part of a batch that is still locked: try again later.
    pub is_batch_locked: bool,
    /// The entity's new share of the coin's key.
    pub server_pubkey: Option<String>,
}

/// The entity's answer to a receiver's request, as far as it could be read:
/// the HTTP status, the error code, the entity's message and the key share
/// where the body held one, and the body itself.
#[derive(Clone, Debug, PartialEq, Eq)]
pub struct ReceiverResponse {
    pub status: u16,
    pub code: Option<TransferReceiverError>,
    /// The message that comes with an error code.
    pub message: Option<String>,
    pub server_pubkey: Option<String>,
    pub body: String,
}

/// Whether an HTTP status reports success.
pub open spec fn spec_is_success(status: u16) -> bool {
    200 <= status <= 299
}

/// Whether an HTTP status reports success.
pub fn is_success(status: u16) -> (yes: bool)
    ensures
        yes == spec_is_success(status),
{
    200 <= status && status <= 299
}

/// What a receiver's request came to. A locked batch is no error. An
/// expired batch is one, described by the entity's own message (by the
/// whole body where the entity gave no message). An answer that cannot be
/// read and any status but 200 and 400 are errors described by the body.
pub open spec fn spec_receiver_outcome(
    status: u16,
    code: Option<TransferReceiverError>,
    message: Option<Seq<char>>,
    server_pubkey: Option<Seq<char>>,
    body: Seq<char>,
) -> Result<(bool, Option<Seq<char>>), (ServerCode, Seq<char>)> {
    if status == BAD_REQUEST {
        match code {
            Some(TransferReceiverError::StatecoinBatchLockedError) => Ok((true, None)),
            Some(TransferReceiverError::ExpiredBatchTimeError) => Err(
                (
                    ServerCode::ExpiredBatchTime,
                    match message {
                        Some(m) => m,
                        None => body,
                    },
                ),
            ),
            None => Err((ServerCode::Status(status), body)),
        }
    } else if status == OK && server_pubkey is Some {
        Ok((false, server_pubkey))
    } else {
        Err((ServerCode::Status(status), body))
    }
}

/// The view of what `send_transfer_receiver_request_payload` gives.
pub open spec fn receiver_result_view(result: Result<TransferReceiveRequestResult, Error>) -> Result<
    (bool, Option<Seq<char>>),
    (ServerCode, Seq<char>),
> {
    match result {
        Ok(r) => Ok((r.is_batch_locked, opt_text(r.server_pubkey))),
        Err(Error::SEProtocolError { code, message }) => Err((code, message@)),
        Err(_) => Err((ServerCode::Status(0), Seq::empty())),
    }
}

/// Reads the entity's answer to a receiver's request: the entity's new key
/// share on success, a locked batch as a result of its own, and
/// `SEProtocolError` for everything else, with the entity's message where
/// the batch has expired and with the body otherwise.
pub fn send_transfer_receiver_request_payload(response: ReceiverResponse) -> (result: Result<
    TransferReceiveRequestResult,
    Error,
>)
    ensures
        result is Err ==> result matches Err(Error::SEProtocolError { .. }),
        receiver_result_view(result) == spec_receiver_outcome(
            response.status,
            response.code,
            opt_text(response.message),
            opt_text(response.server_pubkey),
            response.body@,
        ),
{
    if response.status == BAD_REQUEST {
        return match response.code {
            Some(TransferReceiverError::StatecoinBatchLockedError) => Ok(
                TransferReceiveRequestResult { is_batch_locked: true, server_pubkey: None },
            ),
            Some(TransferReceiverError::ExpiredBatchTimeError) => Err(
                Error::SEProtocolError {
                    code: ServerCode::ExpiredBatchTime,
                    message: match response.message {
                        Some(message) => message,
                        None => response.body,
                    },
                },
            ),
            None => Err(
                Error::SEProtocolError {
                    code: ServerCode::Status(response.status),
                    message: response.body,
                },
            ),
        };
    }
    if response.status == OK {
        match response.server_pubkey {
            Some(key) => {
                return Ok(
                    TransferReceiveRequestResult { is_batch_locked: false, server_pubkey: Some(key) },
                );
            },
            None => {},
        }
    }
    Err(Error::SEProtocolError { code: ServerCode::Status(response.status), message: response.body })
}

/// What a refused unlock request is described by.
pub open spec fn spec_unlock_refused() -> Seq<char> {
    "the entity refused to unlock the coin"@
}

/// What the entity's answer to an unlock request means: nothing on
/// success, `SEProtocolError` with the status otherwise.
pub fn unlock_statecoin(status: u16) -> (result: Result<(), Error>)
    ensures
        spec_is_success(status) ==> result is Ok,
        !spec_is_success(status) ==> (result matches Err(Error::SEProtocolError { code, message })
            && code == ServerCode::Status(status) && message@ == spec_unlock_refused()),
{
    if is_success(status) {
        Ok(())
    } else {
        Err(
            Error::SEProtocolError {
                code: ServerCode::Status(status),
                message: "the entity refused to unlock the coin".to_owned(),
            },
        )
    }
}

} // verus!
