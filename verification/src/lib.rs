use vstd::prelude::*;

pub mod text;
pub mod reports;
pub mod axes;
pub mod i18n;
pub mod html;
pub mod version;
pub mod naming;
pub mod sources;
pub mod share;
pub mod terminal;
pub mod menu;
pub mod publish;
pub mod battle;
pub mod template;
pub mod pages;
pub mod report;

verus! {

} // verus!
