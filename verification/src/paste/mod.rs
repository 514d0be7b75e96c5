//! Whether to send the paste keystroke after an upload.
use vstd::prelude::*;
use crate::config::Config;
use crate::upload::errors::UploadError;
use crate::upload::service::UploadSuccess;

verus! {

/// Paste only when the user opted in AND the path actually reached the clipboard.
pub fn should_paste(cfg: &Config, result: &Result<UploadSuccess, UploadError>) -> (r: bool)
    ensures
        r == (cfg.auto_paste && result is Ok && result->Ok_0.clipboard_updated),
{
    cfg.auto_paste && match result {
        Ok(s) => s.clipboard_updated,
        Err(_) => false,
    }
}

} // verus!
