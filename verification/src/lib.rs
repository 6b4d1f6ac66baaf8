//! Dependency constraints of a package manager and the rules that decide
//! whether a package, or a capability that a package provides, satisfies
//! one.
//!
//! Version strings are ordered by a comparator that the caller supplies;
//! everything here is stated relative to what that comparator answers.

pub mod depend;
pub mod depends;
pub mod depmod;
pub mod grammar;
pub mod hash;
pub mod matching;
pub mod missing;
pub mod removal;
pub mod text;

pub use depend::Depend;
pub use depends::{satisfies_dep, satisfies_provide, satisfies_ver};
pub use depmod::{DepMod, DepModVer};
pub use grammar::{DependError, DependView};
pub use matching::Match;
pub use missing::DepMissing;
pub use removal::removal_of_ret;
