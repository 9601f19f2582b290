//! Minecraft chat components and their wire form.
//!
//! A [`Chat`] is one node of a message: a kind, a [`Style`], and children.
//! [`Chat::encode`] renders it to a [`Wire`] value for a protocol version,
//! and [`Chat::decode`] reads it back from one, whatever the version it was
//! written for. [`Chat::serialize_str`] and [`Chat::deserialize_str`] do the
//! same with JSON text. [`legacy::chat`] makes a component of a text with
//! legacy formatting codes.
//!
//! What a function computes is stated in its contract, over the views of
//! the values involved; what holds between the functions is proved in
//! [`laws`].

use vstd::prelude::*;

pub mod codec;
pub mod color;
pub mod component;
pub mod decode;
pub mod encode;
pub mod error;
pub mod freeze;
pub mod ident;
pub mod keys;
pub mod laws;
pub mod legacy;
pub mod project;
pub mod strings;
pub mod style;
pub mod version;
pub mod wire;
pub mod writable;

pub use color::TextColor;
pub use component::{
    Chat, ComponentKind, KeybindComponent, ScoreComponent, SelectorComponent, TextComponent,
    TranslationComponent,
};
pub use decode::{
    ChatComponentDeserializeErr, ChatComponentType, ClickEventData, ClickEventDeserializeErr,
    ClickEventType,
};
pub use error::{DecodeError, EncodeError};
pub use freeze::FrozenStr;
pub use ident::Uuid;
pub use style::{ClickEvent, EntityTooltip, HoverEvent, ItemStack, Style};
pub use version::VersionPolicy;
pub use wire::Wire;

verus! {

/// The protocol version of Minecraft 1.7.
pub const VERSION_1_7: i32 = 4;

/// The protocol version of Minecraft 1.8.
pub const VERSION_1_8: i32 = 47;

/// The protocol version of Minecraft 1.15.
pub const VERSION_1_15: i32 = 573;

/// The protocol version of Minecraft 1.16.
pub const VERSION_1_16: i32 = 735;

} // verus!
