//! The [`Message`] trait marks the data that travels over topics and services.

use vstd::prelude::*;

verus! {

/// Data that can be sent over a topic or a service.
pub trait Message {

}

impl Message for () {

}

impl Message for String {

}

impl Message for i8 {

}

impl Message for i16 {

}

impl Message for i32 {

}

impl Message for i64 {

}

impl Message for u8 {

}

impl Message for u16 {

}

impl Message for u32 {

}

impl Message for u64 {

}

impl<T: Message> Message for Vec<T> {

}

} // verus!
