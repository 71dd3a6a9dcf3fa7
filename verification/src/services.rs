//! What each command decides once the store or the user has answered: which
//! failure to report, and in which words to confirm.

pub mod call_service;
pub mod mentee_service;
pub mod payment_service;
pub mod video_service;
