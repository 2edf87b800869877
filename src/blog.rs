//! Two ways to model a blog post that must be drafted, reviewed and approved
//! before its text is shown: one state per type, or one type with a state.
pub mod idiom;
pub mod oo;
