//! The verified core of a spray selector for Source engine games: which
//! `.vtf` files a folder offers, the favorites and directory documents kept
//! on disk, the game profiles, the files written to set a spray, and the
//! state of the selector window from one user event to the next.
pub mod documents;
pub mod folder;
pub mod json;
pub mod preview;
pub mod profiles;
pub mod search;
pub mod spray;
pub mod text;
pub mod window;
