//! Blueprint function hooking for cooked Unreal Engine assets.
//!
//! The library models the parts of an asset that hooking touches (imports,
//! exports, properties and Kismet bytecode) and proves the rewriting logic
//! against those models.
#![allow(non_camel_case_types)]

pub mod blueprint;
pub mod export;
pub mod fprop;
pub mod hook;
pub mod index;
pub mod kismet;
pub mod props;
pub mod strings;
pub mod transplant;
pub mod uprop;
pub mod version;
