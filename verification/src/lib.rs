//! Text pieces printed around every run of the duplicate manager: the
//! banner that names the program and its version, and the copyright footer.

pub mod decimal;
pub mod banner;
