//! The decisions a client takes when it logs in: where its files live,
//! which token it reads, and whether that token is its own.

use vstd::prelude::*;

use crate::config::clients_dir_path;
use crate::error::LoginError;
use crate::path::{path_join, push_path};
use crate::text::{int_text, push_i64, push_text};

verus! {

/// The session that a client keeps between runs to log in again without a
/// password.
pub struct Token {
    pub uin: i64,
    pub d2: Vec<u8>,
    pub d2key: Vec<u8>,
    pub tgt: Vec<u8>,
    pub srm_token: Vec<u8>,
    pub t133: Vec<u8>,
    pub encrypted_a1: Vec<u8>,
    pub out_packet_session_id: Vec<u8>,
    pub tgtgt_key: Vec<u8>,
    pub wt_session_ticket_key: Vec<u8>,
}

/// The directory of a client's files: the configured one, else
/// `clients/<account>`.
pub open spec fn work_dir_spec(configured: Option<Seq<char>>, id: i64) -> Seq<char> {
    match configured {
        Some(d) => d,
        None => path_join("clients"@, int_text(id as int)),
    }
}

/// The directory of a client's files.
pub fn work_dir(configured: Option<&str>, id: i64) -> (r: String)
    ensures
        r@ == work_dir_spec(
            match configured {
                Some(d) => Some(d@),
                None => None,
            },
            id,
        ),
{
    match configured {
        Some(d) => {
            let mut s = String::new();
            push_text(&mut s, d);
            assert(s@ =~= d@);
            s
        },
        None => {
            let mut id_text = String::new();
            push_i64(&mut id_text, id);
            assert(id_text@ =~= int_text(id as int));
            let mut s = String::new();
            push_text(&mut s, clients_dir_path());
            assert(s@ =~= "clients"@);
            push_path(&mut s, id_text.as_str());
            s
        },
    }
}

/// Where a client reads its token from.
#[derive(Clone, Copy, PartialEq, Eq, Structural, Debug)]
pub enum TokenSource {
    /// `token.bin`, in the protocol-buffer encoding.
    Binary,
    /// `token.json`, the older form.
    Json,
}

/// Which token file a client reads: `token.bin` when it can be read, else
/// `token.json` when it can be opened; with neither, there is no token.
pub fn token_source(binary_readable: bool, json_readable: bool) -> (r: Result<TokenSource, LoginError>)
    ensures
        binary_readable ==> r == Ok::<TokenSource, LoginError>(TokenSource::Binary),
        !binary_readable && json_readable ==> r == Ok::<TokenSource, LoginError>(TokenSource::Json),
        !binary_readable && !json_readable ==> r == Err::<TokenSource, LoginError>(LoginError::TokenNotExist),
{
    if binary_readable {
        Ok(TokenSource::Binary)
    } else if json_readable {
        Ok(TokenSource::Json)
    } else {
        Err(LoginError::TokenNotExist)
    }
}

/// A client only logs in with a token of its own account.
pub fn check_token_owner(token: &Token, client_id: i64) -> (r: Result<(), LoginError>)
    ensures
        token.uin == client_id ==> r is Ok,
        token.uin != client_id ==> r == Err::<(), LoginError>(LoginError::WrongToken),
{
    if token.uin != client_id {
        Err(LoginError::WrongToken)
    } else {
        Ok(())
    }
}

/// The result of a token login, from whether the server accepted it.
pub fn login_outcome(accepted: bool) -> (r: Result<(), LoginError>)
    ensures
        accepted ==> r is Ok,
        !accepted ==> r == Err::<(), LoginError>(LoginError::TokenLoginFailed),
{
    if accepted {
        Ok(())
    } else {
        Err(LoginError::TokenLoginFailed)
    }
}

/// What a client does about its device identity at start.
#[derive(Clone, Copy, PartialEq, Eq, Structural, Debug)]
pub enum DeviceStep {
    /// Use the device stored in `device.json`.
    UseStored,
    /// Use a new random device, and write it to `device.json` when `write`.
    Random { write: bool },
    /// The stored device could not be read: copy `device.json` to
    /// `device.json.bak`, then go on as `device_after_backup` says.
    BackUp,
}

/// The first step about the device, given whether `device.json` is a file,
/// whether it opened, and whether its text parsed as a device: a missing
/// file gives a random device that is written; a file that does not open,
/// a random device that is not; a parsed file, its device; a file that does
/// not parse is backed up first.
pub fn device_step(file_present: bool, opened: bool, parsed: bool) -> (r: DeviceStep)
    ensures
        !file_present ==> r == (DeviceStep::Random { write: true }),
        file_present && !opened ==> r == (DeviceStep::Random { write: false }),
        file_present && opened && parsed ==> r == DeviceStep::UseStored,
        file_present && opened && !parsed ==> r == DeviceStep::BackUp,
{
    if !file_present {
        DeviceStep::Random { write: true }
    } else if !opened {
        DeviceStep::Random { write: false }
    } else if parsed {
        DeviceStep::UseStored
    } else {
        DeviceStep::BackUp
    }
}

/// The step after backing up a device file that did not parse: a random
/// device, written over the file only when the backup succeeded.
pub fn device_after_backup(backup_ok: bool) -> (r: DeviceStep)
    ensures
        r == (DeviceStep::Random { write: backup_ok }),
{
    DeviceStep::Random { write: backup_ok }
}

} // verus!
