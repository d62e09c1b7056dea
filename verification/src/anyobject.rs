//! A container for one value of any of a closed set of types, which gives the
//! value back only to a caller who names the type it was made from.
//!
//! The container keeps a tagged copy of the value: the tag says which type the
//! value has, and a retrieval as any other type finds nothing.

use crate::instructions::NativeTypes;
use vstd::prelude::*;

verus! {

/// What a container holds: a value together with the type it has.
#[derive(Debug, Clone, Copy, PartialEq, Eq, Hash, Structural)]
pub enum Content {
    U8(u8),
    I8(i8),
    U16(u16),
    I16(i16),
    U32(u32),
    I32(i32),
    U64(u64),
    I64(i64),
    Size(usize),
    Flag(bool),
    Native(NativeTypes),
}

impl Content {
    /// The position of the held value's type among the types that a container
    /// can hold.
    pub open spec fn slot(self) -> int {
        match self {
            Content::U8(_) => 0,
            Content::I8(_) => 1,
            Content::U16(_) => 2,
            Content::I16(_) => 3,
            Content::U32(_) => 4,
            Content::I32(_) => 5,
            Content::U64(_) => 6,
            Content::I64(_) => 7,
            Content::Size(_) => 8,
            Content::Flag(_) => 9,
            Content::Native(_) => 10,
        }
    }
}

/// A type whose values a container can hold.
pub trait Storable: Sized {
    /// The position of this type among the types that a container can hold.
    spec fn slot() -> int;

    /// The content that holds `self`.
    spec fn pack(self) -> Content;

    /// The value of this type that `content` holds, if it holds one.
    spec fn unpack(content: Content) -> Option<Self>;

    /// Packing a value keeps it: it is found again, under this type's slot.
    proof fn lemma_pack_unpack(self)
        ensures
            self.pack().slot() == Self::slot(),
            Self::unpack(self.pack()) == Some(self),
    ;

    /// A content holds a value of this type exactly where it has this type's
    /// slot, and then it is the packing of that value.
    proof fn lemma_unpack_pack(content: Content)
        ensures
            Self::unpack(content) is Some <==> content.slot() == Self::slot(),
            Self::unpack(content) matches Some(value) ==> value.pack() == content,
    ;

    /// Packs `self`.
    fn store(self) -> (content: Content)
        ensures
            content == self.pack(),
    ;

    /// The value of this type in `content`, if it holds one.
    fn fetch(content: &Content) -> (value: Option<&Self>)
        ensures
            match value {
                Some(v) => Self::unpack(*content) == Some(*v),
                None => Self::unpack(*content) is None,
            },
    ;
}

impl Storable for u8 {
    open spec fn slot() -> int {
        0
    }

    open spec fn pack(self) -> Content {
        Content::U8(self)
    }

    open spec fn unpack(content: Content) -> Option<Self> {
        match content {
            Content::U8(value) => Some(value),
            _ => None,
        }
    }

    proof fn lemma_pack_unpack(self) {
    }

    proof fn lemma_unpack_pack(content: Content) {
    }

    fn store(self) -> (content: Content) {
        Content::U8(self)
    }

    fn fetch(content: &Content) -> (value: Option<&Self>) {
        match content {
            Content::U8(value) => Some(value),
            _ => None,
        }
    }
}

impl Storable for i8 {
    open spec fn slot() -> int {
        1
    }

    open spec fn pack(self) -> Content {
        Content::I8(self)
    }

    open spec fn unpack(content: Content) -> Option<Self> {
        match content {
            Content::I8(value) => Some(value),
            _ => None,
        }
    }

    proof fn lemma_pack_unpack(self) {
    }

    proof fn lemma_unpack_pack(content: Content) {
    }

    fn store(self) -> (content: Content) {
        Content::I8(self)
    }

    fn fetch(content: &Content) -> (value: Option<&Self>) {
        match content {
            Content::I8(value) => Some(value),
            _ => None,
        }
    }
}

impl Storable for u16 {
    open spec fn slot() -> int {
        2
    }

    open spec fn pack(self) -> Content {
        Content::U16(self)
    }

    open spec fn unpack(content: Content) -> Option<Self> {
        match content {
            Content::U16(value) => Some(value),
            _ => None,
        }
    }

    proof fn lemma_pack_unpack(self) {
    }

    proof fn lemma_unpack_pack(content: Content) {
    }

    fn store(self) -> (content: Content) {
        Content::U16(self)
    }

    fn fetch(content: &Content) -> (value: Option<&Self>) {
        match content {
            Content::U16(value) => Some(value),
            _ => None,
        }
    }
}

impl Storable for i16 {
    open spec fn slot() -> int {
        3
    }

    open spec fn pack(self) -> Content {
        Content::I16(self)
    }

    open spec fn unpack(content: Content) -> Option<Self> {
        match content {
            Content::I16(value) => Some(value),
            _ => None,
        }
    }

    proof fn lemma_pack_unpack(self) {
    }

    proof fn lemma_unpack_pack(content: Content) {
    }

    fn store(self) -> (content: Content) {
        Content::I16(self)
    }

    fn fetch(content: &Content) -> (value: Option<&Self>) {
        match content {
            Content::I16(value) => Some(value),
            _ => None,
        }
    }
}

impl Storable for u32 {
    open spec fn slot() -> int {
        4
    }

    open spec fn pack(self) -> Content {
        Content::U32(self)
    }

    open spec fn unpack(content: Content) -> Option<Self> {
        match content {
            Content::U32(value) => Some(value),
            _ => None,
        }
    }

    proof fn lemma_pack_unpack(self) {
    }

    proof fn lemma_unpack_pack(content: Content) {
    }

    fn store(self) -> (content: Content) {
        Content::U32(self)
    }

    fn fetch(content: &Content) -> (value: Option<&Self>) {
        match content {
            Content::U32(value) => Some(value),
            _ => None,
        }
    }
}

impl Storable for i32 {
    open spec fn slot() -> int {
        5
    }

    open spec fn pack(self) -> Content {
        Content::I32(self)
    }

    open spec fn unpack(content: Content) -> Option<Self> {
        match content {
            Content::I32(value) => Some(value),
            _ => None,
        }
    }

    proof fn lemma_pack_unpack(self) {
    }

    proof fn lemma_unpack_pack(content: Content) {
    }

    fn store(self) -> (content: Content) {
        Content::I32(self)
    }

    fn fetch(content: &Content) -> (value: Option<&Self>) {
        match content {
            Content::I32(value) => Some(value),
            _ => None,
        }
    }
}

impl Storable for u64 {
    open spec fn slot() -> int {
        6
    }

    open spec fn pack(self) -> Content {
        Content::U64(self)
    }

    open spec fn unpack(content: Content) -> Option<Self> {
        match content {
            Content::U64(value) => Some(value),
            _ => None,
        }
    }

    proof fn lemma_pack_unpack(self) {
    }

    proof fn lemma_unpack_pack(content: Content) {
    }

    fn store(self) -> (content: Content) {
        Content::U64(self)
    }

    fn fetch(content: &Content) -> (value: Option<&Self>) {
        match content {
            Content::U64(value) => Some(value),
            _ => None,
        }
    }
}

impl Storable for i64 {
    open spec fn slot() -> int {
        7
    }

    open spec fn pack(self) -> Content {
        Content::I64(self)
    }

    open spec fn unpack(content: Content) -> Option<Self> {
        match content {
            Content::I64(value) => Some(value),
            _ => None,
        }
    }

    proof fn lemma_pack_unpack(self) {
    }

    proof fn lemma_unpack_pack(content: Content) {
    }

    fn store(self) -> (content: Content) {
        Content::I64(self)
    }

    fn fetch(content: &Content) -> (value: Option<&Self>) {
        match content {
            Content::I64(value) => Some(value),
            _ => None,
        }
    }
}

impl Storable for usize {
    open spec fn slot() -> int {
        8
    }

    open spec fn pack(self) -> Content {
        Content::Size(self)
    }

    open spec fn unpack(content: Content) -> Option<Self> {
        match content {
            Content::Size(value) => Some(value),
            _ => None,
        }
    }

    proof fn lemma_pack_unpack(self) {
    }

    proof fn lemma_unpack_pack(content: Content) {
    }

    fn store(self) -> (content: Content) {
        Content::Size(self)
    }

    fn fetch(content: &Content) -> (value: Option<&Self>) {
        match content {
            Content::Size(value) => Some(value),
            _ => None,
        }
    }
}

impl Storable for bool {
    open spec fn slot() -> int {
        9
    }

    open spec fn pack(self) -> Content {
        Content::Flag(self)
    }

    open spec fn unpack(content: Content) -> Option<Self> {
        match content {
            Content::Flag(value) => Some(value),
            _ => None,
        }
    }

    proof fn lemma_pack_unpack(self) {
    }

    proof fn lemma_unpack_pack(content: Content) {
    }

    fn store(self) -> (content: Content) {
        Content::Flag(self)
    }

    fn fetch(content: &Content) -> (value: Option<&Self>) {
        match content {
            Content::Flag(value) => Some(value),
            _ => None,
        }
    }
}

impl Storable for NativeTypes {
    open spec fn slot() -> int {
        10
    }

    open spec fn pack(self) -> Content {
        Content::Native(self)
    }

    open spec fn unpack(content: Content) -> Option<Self> {
        match content {
            Content::Native(value) => Some(value),
            _ => None,
        }
    }

    proof fn lemma_pack_unpack(self) {
    }

    proof fn lemma_unpack_pack(content: Content) {
    }

    fn store(self) -> (content: Content) {
        Content::Native(self)
    }

    fn fetch(content: &Content) -> (value: Option<&Self>) {
        match content {
            Content::Native(value) => Some(value),
            _ => None,
        }
    }
}

/// A container that holds one value and remembers its type.
#[derive(Debug, Clone, Copy, PartialEq, Eq, Hash, Structural)]
pub struct AnyObject {
    content: Content,
}

impl AnyObject {
    /// What the container holds.
    pub closed spec fn view(&self) -> Content {
        self.content
    }

    /// "Set" value: a container that holds `value`.
    pub fn anonymise<T: Storable>(value: T) -> (object: AnyObject)
        ensures
            object@ == value.pack(),
    {
        AnyObject { content: value.store() }
    }

    /// "Get" value: the held value, for the caller who names its type `T`;
    /// `None` for every other type.
    pub fn deanonymise<T: Storable>(&self) -> (value: Option<&T>)
        ensures
            match value {
                Some(v) => T::unpack(self@) == Some(*v),
                None => T::unpack(self@) is None,
            },
            value is Some <==> self@.slot() == T::slot(),
    {
        proof {
            T::lemma_unpack_pack(self.content);
        }
        T::fetch(&self.content)
    }
}

/// A value put into a container is found again under its own type.
pub proof fn lemma_retrieve_same_type<T: Storable>(object: AnyObject, value: T)
    requires
        object@ == value.pack(),
    ensures
        T::unpack(object@) == Some(value),
{
    value.lemma_pack_unpack();
}

/// A value put into a container is found under no other type.
pub proof fn lemma_retrieve_other_type<T: Storable, U: Storable>(object: AnyObject, value: T)
    requires
        object@ == value.pack(),
        T::slot() != U::slot(),
    ensures
        U::unpack(object@) is None,
{
    value.lemma_pack_unpack();
    U::lemma_unpack_pack(object@);
}

} // verus!
