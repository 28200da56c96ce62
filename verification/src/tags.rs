//! The discriminants of the tagged unions that cross the guest boundary.

use vstd::prelude::*;

verus! {

/// Which variant a fixed-layout result union holds.
#[allow(non_camel_case_types)]
#[derive(Clone, Copy, Debug, PartialEq, Eq, PartialOrd, Ord, Hash, Structural)]
pub enum discriminant_U1 {
    ErrTag,
    OkTag,
}

impl discriminant_U1 {
    /// The byte that stands for this tag in guest memory.
    pub open spec fn spec_to_byte(self) -> u8 {
        match self {
            discriminant_U1::ErrTag => 0u8,
            discriminant_U1::OkTag => 1u8,
        }
    }

    /// The tag a byte of guest memory stands for, if any.
    pub open spec fn spec_from_byte(byte: u8) -> Option<Self> {
        if byte == 0u8 {
            Some(discriminant_U1::ErrTag)
        } else if byte == 1u8 {
            Some(discriminant_U1::OkTag)
        } else {
            None
        }
    }

    /// The byte that stands for this tag in guest memory.
    pub fn to_byte(self) -> (r: u8)
        ensures
            r == self.spec_to_byte(),
    {
        match self {
            discriminant_U1::ErrTag => 0u8,
            discriminant_U1::OkTag => 1u8,
        }
    }

    /// Decodes a tag byte read from guest memory; `None` for a byte that
    /// names no variant.
    pub fn from_byte(byte: u8) -> (r: Option<Self>)
        ensures
            r == Self::spec_from_byte(byte),
            r.is_some() <==> byte < 2,
    {
        match byte {
            0u8 => Some(discriminant_U1::ErrTag),
            1u8 => Some(discriminant_U1::OkTag),
            _ => None,
        }
    }

    /// The text this tag is shown as in diagnostics.
    pub open spec fn spec_debug_name(self) -> Seq<char> {
        match self {
            discriminant_U1::ErrTag => "discriminant_U1::Err"@,
            discriminant_U1::OkTag => "discriminant_U1::Ok"@,
        }
    }

    /// The text this tag is shown as in diagnostics.
    pub fn debug_name(&self) -> (r: String)
        ensures
            r@ == self.spec_debug_name(),
    {
        match self {
            discriminant_U1::ErrTag => "discriminant_U1::Err".to_owned(),
            discriminant_U1::OkTag => "discriminant_U1::Ok".to_owned(),
        }
    }
}
/// Decoding the byte of a tag gives that tag back, and a byte that decodes
/// to a tag is the byte of that tag.
pub proof fn lemma_u1_byte_round_trip(tag: discriminant_U1, byte: u8)
    ensures
        discriminant_U1::spec_from_byte(tag.spec_to_byte()) == Some(tag),
        discriminant_U1::spec_from_byte(byte) == Some(tag) ==> tag.spec_to_byte() == byte,
{
}

/// Which variant a guest result holds.
#[allow(non_camel_case_types)]
#[derive(Clone, Copy, Debug, PartialEq, Eq, PartialOrd, Ord, Hash, Structural)]
pub enum discriminant_RocResult {
    ErrTag,
    OkTag,
}

impl discriminant_RocResult {
    /// The byte that stands for this tag in guest memory.
    pub open spec fn spec_to_byte(self) -> u8 {
        match self {
            discriminant_RocResult::ErrTag => 0u8,
            discriminant_RocResult::OkTag => 1u8,
        }
    }

    /// The tag a byte of guest memory stands for, if any.
    pub open spec fn spec_from_byte(byte: u8) -> Option<Self> {
        if byte == 0u8 {
            Some(discriminant_RocResult::ErrTag)
        } else if byte == 1u8 {
            Some(discriminant_RocResult::OkTag)
        } else {
            None
        }
    }

    /// The byte that stands for this tag in guest memory.
    pub fn to_byte(self) -> (r: u8)
        ensures
            r == self.spec_to_byte(),
    {
        match self {
            discriminant_RocResult::ErrTag => 0u8,
            discriminant_RocResult::OkTag => 1u8,
        }
    }

    /// Decodes a tag byte read from guest memory; `None` for a byte that
    /// names no variant.
    pub fn from_byte(byte: u8) -> (r: Option<Self>)
        ensures
            r == Self::spec_from_byte(byte),
            r.is_some() <==> byte < 2,
    {
        match byte {
            0u8 => Some(discriminant_RocResult::ErrTag),
            1u8 => Some(discriminant_RocResult::OkTag),
            _ => None,
        }
    }

    /// The text this tag is shown as in diagnostics.
    pub open spec fn spec_debug_name(self) -> Seq<char> {
        match self {
            discriminant_RocResult::ErrTag => "discriminant_RocReslt::Err"@,
            discriminant_RocResult::OkTag => "discriminant_RocReslt::Ok"@,
        }
    }

    /// The text this tag is shown as in diagnostics.
    pub fn debug_name(&self) -> (r: String)
        ensures
            r@ == self.spec_debug_name(),
    {
        match self {
            discriminant_RocResult::ErrTag => "discriminant_RocReslt::Err".to_owned(),
            discriminant_RocResult::OkTag => "discriminant_RocReslt::Ok".to_owned(),
        }
    }
}
/// Decoding the byte of a tag gives that tag back, and a byte that decodes
/// to a tag is the byte of that tag.
pub proof fn lemma_result_byte_round_trip(tag: discriminant_RocResult, byte: u8)
    ensures
        discriminant_RocResult::spec_from_byte(tag.spec_to_byte()) == Some(tag),
        discriminant_RocResult::spec_from_byte(byte) == Some(tag) ==> tag.spec_to_byte() == byte,
{
}

/// Which variant an attribute record holds.
#[allow(non_camel_case_types)]
#[derive(Clone, Copy, Debug, PartialEq, Eq, PartialOrd, Ord, Hash, Structural)]
pub enum discriminant_InternalAttr {
    Alt,
    Attribute,
    Autocomplete,
    Checked,
    Class,
    DataAttribute,
    Disabled,
    Hidden,
    Href,
    Id,
    Multiple,
    Name,
    OnEvent,
    Placeholder,
    Readonly,
    Required,
    Selected,
    Src,
    Style,
    Tabindex,
    Title,
    Type,
    Value,
}

impl discriminant_InternalAttr {
    /// The byte that stands for this tag in guest memory.
    pub open spec fn spec_to_byte(self) -> u8 {
        match self {
            discriminant_InternalAttr::Alt => 0u8,
            discriminant_InternalAttr::Attribute => 1u8,
            discriminant_InternalAttr::Autocomplete => 2u8,
            discriminant_InternalAttr::Checked => 3u8,
            discriminant_InternalAttr::Class => 4u8,
            discriminant_InternalAttr::DataAttribute => 5u8,
            discriminant_InternalAttr::Disabled => 6u8,
            discriminant_InternalAttr::Hidden => 7u8,
            discriminant_InternalAttr::Href => 8u8,
            discriminant_InternalAttr::Id => 9u8,
            discriminant_InternalAttr::Multiple => 10u8,
            discriminant_InternalAttr::Name => 11u8,
            discriminant_InternalAttr::OnEvent => 12u8,
            discriminant_InternalAttr::Placeholder => 13u8,
            discriminant_InternalAttr::Readonly => 14u8,
            discriminant_InternalAttr::Required => 15u8,
            discriminant_InternalAttr::Selected => 16u8,
            discriminant_InternalAttr::Src => 17u8,
            discriminant_InternalAttr::Style => 18u8,
            discriminant_InternalAttr::Tabindex => 19u8,
            discriminant_InternalAttr::Title => 20u8,
            discriminant_InternalAttr::Type => 21u8,
            discriminant_InternalAttr::Value => 22u8,
        }
    }

    /// The tag a byte of guest memory stands for, if any.
    pub open spec fn spec_from_byte(byte: u8) -> Option<Self> {
        if byte == 0u8 {
            Some(discriminant_InternalAttr::Alt)
        } else if byte == 1u8 {
            Some(discriminant_InternalAttr::Attribute)
        } else if byte == 2u8 {
            Some(discriminant_InternalAttr::Autocomplete)
        } else if byte == 3u8 {
            Some(discriminant_InternalAttr::Checked)
        } else if byte == 4u8 {
            Some(discriminant_InternalAttr::Class)
        } else if byte == 5u8 {
            Some(discriminant_InternalAttr::DataAttribute)
        } else if byte == 6u8 {
            Some(discriminant_InternalAttr::Disabled)
        } else if byte == 7u8 {
            Some(discriminant_InternalAttr::Hidden)
        } else if byte == 8u8 {
            Some(discriminant_InternalAttr::Href)
        } else if byte == 9u8 {
            Some(discriminant_InternalAttr::Id)
        } else if byte == 10u8 {
            Some(discriminant_InternalAttr::Multiple)
        } else if byte == 11u8 {
            Some(discriminant_InternalAttr::Name)
        } else if byte == 12u8 {
            Some(discriminant_InternalAttr::OnEvent)
        } else if byte == 13u8 {
            Some(discriminant_InternalAttr::Placeholder)
        } else if byte == 14u8 {
            Some(discriminant_InternalAttr::Readonly)
        } else if byte == 15u8 {
            Some(discriminant_InternalAttr::Required)
        } else if byte == 16u8 {
            Some(discriminant_InternalAttr::Selected)
        } else if byte == 17u8 {
            Some(discriminant_InternalAttr::Src)
        } else if byte == 18u8 {
            Some(discriminant_InternalAttr::Style)
        } else if byte == 19u8 {
            Some(discriminant_InternalAttr::Tabindex)
        } else if byte == 20u8 {
            Some(discriminant_InternalAttr::Title)
        } else if byte == 21u8 {
            Some(discriminant_InternalAttr::Type)
        } else if byte == 22u8 {
            Some(discriminant_InternalAttr::Value)
        } else {
            None
        }
    }

    /// The byte that stands for this tag in guest memory.
    pub fn to_byte(self) -> (r: u8)
        ensures
            r == self.spec_to_byte(),
    {
        match self {
            discriminant_InternalAttr::Alt => 0u8,
            discriminant_InternalAttr::Attribute => 1u8,
            discriminant_InternalAttr::Autocomplete => 2u8,
            discriminant_InternalAttr::Checked => 3u8,
            discriminant_InternalAttr::Class => 4u8,
            discriminant_InternalAttr::DataAttribute => 5u8,
            discriminant_InternalAttr::Disabled => 6u8,
            discriminant_InternalAttr::Hidden => 7u8,
            discriminant_InternalAttr::Href => 8u8,
            discriminant_InternalAttr::Id => 9u8,
            discriminant_InternalAttr::Multiple => 10u8,
            discriminant_InternalAttr::Name => 11u8,
            discriminant_InternalAttr::OnEvent => 12u8,
            discriminant_InternalAttr::Placeholder => 13u8,
            discriminant_InternalAttr::Readonly => 14u8,
            discriminant_InternalAttr::Required => 15u8,
            discriminant_InternalAttr::Selected => 16u8,
            discriminant_InternalAttr::Src => 17u8,
            discriminant_InternalAttr::Style => 18u8,
            discriminant_InternalAttr::Tabindex => 19u8,
            discriminant_InternalAttr::Title => 20u8,
            discriminant_InternalAttr::Type => 21u8,
            discriminant_InternalAttr::Value => 22u8,
        }
    }

    /// Decodes a tag byte read from guest memory; `None` for a byte that
    /// names no variant.
    pub fn from_byte(byte: u8) -> (r: Option<Self>)
        ensures
            r == Self::spec_from_byte(byte),
            r.is_some() <==> byte < 23,
    {
        match byte {
            0u8 => Some(discriminant_InternalAttr::Alt),
            1u8 => Some(discriminant_InternalAttr::Attribute),
            2u8 => Some(discriminant_InternalAttr::Autocomplete),
            3u8 => Some(discriminant_InternalAttr::Checked),
            4u8 => Some(discriminant_InternalAttr::Class),
            5u8 => Some(discriminant_InternalAttr::DataAttribute),
            6u8 => Some(discriminant_InternalAttr::Disabled),
            7u8 => Some(discriminant_InternalAttr::Hidden),
            8u8 => Some(discriminant_InternalAttr::Href),
            9u8 => Some(discriminant_InternalAttr::Id),
            10u8 => Some(discriminant_InternalAttr::Multiple),
            11u8 => Some(discriminant_InternalAttr::Name),
            12u8 => Some(discriminant_InternalAttr::OnEvent),
            13u8 => Some(discriminant_InternalAttr::Placeholder),
            14u8 => Some(discriminant_InternalAttr::Readonly),
            15u8 => Some(discriminant_InternalAttr::Required),
            16u8 => Some(discriminant_InternalAttr::Selected),
            17u8 => Some(discriminant_InternalAttr::Src),
            18u8 => Some(discriminant_InternalAttr::Style),
            19u8 => Some(discriminant_InternalAttr::Tabindex),
            20u8 => Some(discriminant_InternalAttr::Title),
            21u8 => Some(discriminant_InternalAttr::Type),
            22u8 => Some(discriminant_InternalAttr::Value),
            _ => None,
        }
    }

    /// The text this tag is shown as in diagnostics.
    pub open spec fn spec_debug_name(self) -> Seq<char> {
        match self {
            discriminant_InternalAttr::Alt => "discriminant_InternalAttr::Alt"@,
            discriminant_InternalAttr::Attribute => "discriminant_InternalAttr::Attribute"@,
            discriminant_InternalAttr::Autocomplete => "discriminant_InternalAttr::Autocomplete"@,
            discriminant_InternalAttr::Checked => "discriminant_InternalAttr::Checked"@,
            discriminant_InternalAttr::Class => "discriminant_InternalAttr::Class"@,
            discriminant_InternalAttr::DataAttribute => "discriminant_InternalAttr::DataAttribute"@,
            discriminant_InternalAttr::Disabled => "discriminant_InternalAttr::Disabled"@,
            discriminant_InternalAttr::Hidden => "discriminant_InternalAttr::Hidden"@,
            discriminant_InternalAttr::Href => "discriminant_InternalAttr::Href"@,
            discriminant_InternalAttr::Id => "discriminant_InternalAttr::Id"@,
            discriminant_InternalAttr::Multiple => "discriminant_InternalAttr::Multiple"@,
            discriminant_InternalAttr::Name => "discriminant_InternalAttr::Name"@,
            discriminant_InternalAttr::OnEvent => "discriminant_InternalAttr::OnEvent"@,
            discriminant_InternalAttr::Placeholder => "discriminant_InternalAttr::Placeholder"@,
            discriminant_InternalAttr::Readonly => "discriminant_InternalAttr::Readonly"@,
            discriminant_InternalAttr::Required => "discriminant_InternalAttr::Required"@,
            discriminant_InternalAttr::Selected => "discriminant_InternalAttr::Selected"@,
            discriminant_InternalAttr::Src => "discriminant_InternalAttr::Src"@,
            discriminant_InternalAttr::Style => "discriminant_InternalAttr::Style"@,
            discriminant_InternalAttr::Tabindex => "discriminant_InternalAttr::Tabindex"@,
            discriminant_InternalAttr::Title => "discriminant_InternalAttr::Title"@,
            discriminant_InternalAttr::Type => "discriminant_InternalAttr::Type"@,
            discriminant_InternalAttr::Value => "discriminant_InternalAttr::Value"@,
        }
    }

    /// The text this tag is shown as in diagnostics.
    pub fn debug_name(&self) -> (r: String)
        ensures
            r@ == self.spec_debug_name(),
    {
        match self {
            discriminant_InternalAttr::Alt => "discriminant_InternalAttr::Alt".to_owned(),
            discriminant_InternalAttr::Attribute => "discriminant_InternalAttr::Attribute".to_owned(),
            discriminant_InternalAttr::Autocomplete => "discriminant_InternalAttr::Autocomplete".to_owned(),
            discriminant_InternalAttr::Checked => "discriminant_InternalAttr::Checked".to_owned(),
            discriminant_InternalAttr::Class => "discriminant_InternalAttr::Class".to_owned(),
            discriminant_InternalAttr::DataAttribute => "discriminant_InternalAttr::DataAttribute".to_owned(),
            discriminant_InternalAttr::Disabled => "discriminant_InternalAttr::Disabled".to_owned(),
            discriminant_InternalAttr::Hidden => "discriminant_InternalAttr::Hidden".to_owned(),
            discriminant_InternalAttr::Href => "discriminant_InternalAttr::Href".to_owned(),
            discriminant_InternalAttr::Id => "discriminant_InternalAttr::Id".to_owned(),
            discriminant_InternalAttr::Multiple => "discriminant_InternalAttr::Multiple".to_owned(),
            discriminant_InternalAttr::Name => "discriminant_InternalAttr::Name".to_owned(),
            discriminant_InternalAttr::OnEvent => "discriminant_InternalAttr::OnEvent".to_owned(),
            discriminant_InternalAttr::Placeholder => "discriminant_InternalAttr::Placeholder".to_owned(),
            discriminant_InternalAttr::Readonly => "discriminant_InternalAttr::Readonly".to_owned(),
            discriminant_InternalAttr::Required => "discriminant_InternalAttr::Required".to_owned(),
            discriminant_InternalAttr::Selected => "discriminant_InternalAttr::Selected".to_owned(),
            discriminant_InternalAttr::Src => "discriminant_InternalAttr::Src".to_owned(),
            discriminant_InternalAttr::Style => "discriminant_InternalAttr::Style".to_owned(),
            discriminant_InternalAttr::Tabindex => "discriminant_InternalAttr::Tabindex".to_owned(),
            discriminant_InternalAttr::Title => "discriminant_InternalAttr::Title".to_owned(),
            discriminant_InternalAttr::Type => "discriminant_InternalAttr::Type".to_owned(),
            discriminant_InternalAttr::Value => "discriminant_InternalAttr::Value".to_owned(),
        }
    }
}
/// Decoding the byte of a tag gives that tag back, and a byte that decodes
/// to a tag is the byte of that tag.
pub proof fn lemma_attr_byte_round_trip(tag: discriminant_InternalAttr, byte: u8)
    ensures
        discriminant_InternalAttr::spec_from_byte(tag.spec_to_byte()) == Some(tag),
        discriminant_InternalAttr::spec_from_byte(byte) == Some(tag) ==> tag.spec_to_byte() == byte,
{
}

/// Which variant a node of the DOM description holds.
#[allow(non_camel_case_types)]
#[derive(Clone, Copy, Debug, PartialEq, Eq, PartialOrd, Ord, Hash, Structural)]
pub enum discriminant_InternalHtml {
    Element,
    Text,
}

impl discriminant_InternalHtml {
    /// The byte that stands for this tag in guest memory.
    pub open spec fn spec_to_byte(self) -> u8 {
        match self {
            discriminant_InternalHtml::Element => 0u8,
            discriminant_InternalHtml::Text => 1u8,
        }
    }

    /// The tag a byte of guest memory stands for, if any.
    pub open spec fn spec_from_byte(byte: u8) -> Option<Self> {
        if byte == 0u8 {
            Some(discriminant_InternalHtml::Element)
        } else if byte == 1u8 {
            Some(discriminant_InternalHtml::Text)
        } else {
            None
        }
    }

    /// The byte that stands for this tag in guest memory.
    pub fn to_byte(self) -> (r: u8)
        ensures
            r == self.spec_to_byte(),
    {
        match self {
            discriminant_InternalHtml::Element => 0u8,
            discriminant_InternalHtml::Text => 1u8,
        }
    }

    /// Decodes a tag byte read from guest memory; `None` for a byte that
    /// names no variant.
    pub fn from_byte(byte: u8) -> (r: Option<Self>)
        ensures
            r == Self::spec_from_byte(byte),
            r.is_some() <==> byte < 2,
    {
        match byte {
            0u8 => Some(discriminant_InternalHtml::Element),
            1u8 => Some(discriminant_InternalHtml::Text),
            _ => None,
        }
    }

    /// The text this tag is shown as in diagnostics.
    pub open spec fn spec_debug_name(self) -> Seq<char> {
        match self {
            discriminant_InternalHtml::Element => "discriminant_InternalHtml::Element"@,
            discriminant_InternalHtml::Text => "discriminant_InternalHtml::Text"@,
        }
    }

    /// The text this tag is shown as in diagnostics.
    pub fn debug_name(&self) -> (r: String)
        ensures
            r@ == self.spec_debug_name(),
    {
        match self {
            discriminant_InternalHtml::Element => "discriminant_InternalHtml::Element".to_owned(),
            discriminant_InternalHtml::Text => "discriminant_InternalHtml::Text".to_owned(),
        }
    }
}
/// Decoding the byte of a tag gives that tag back, and a byte that decodes
/// to a tag is the byte of that tag.
pub proof fn lemma_html_byte_round_trip(tag: discriminant_InternalHtml, byte: u8)
    ensures
        discriminant_InternalHtml::spec_from_byte(tag.spec_to_byte()) == Some(tag),
        discriminant_InternalHtml::spec_from_byte(byte) == Some(tag) ==> tag.spec_to_byte() == byte,
{
}

} // verus!
