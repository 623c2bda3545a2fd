//! Layer gateway core: naming, on-disk layout, request routing and the
//! decisions of the read-through / write-back layer manager.

pub mod name;
pub mod layout;
pub mod subfile;
pub mod route;
pub mod promotion;
pub mod manager;
