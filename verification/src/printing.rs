//! What `{:?}` needs of `core::fmt`. Everything in this file is believed, not proved.
//!
//! A formatter carries options, such as those of `{:#?}` or `{:x?}`, and hands what is
//! written to a sink that may refuse it. The builder of a struct's output follows the
//! options, so neither the exact text nor success is stated of it: what is stated is which
//! name and which values it is handed, in which order.

use core::fmt::{Debug, DebugStruct, Formatter};
use vstd::prelude::*;

verus! {

/// `core::fmt::Formatter`, which text is written to.
#[verifier::external_type_specification]
#[verifier::external_body]
pub struct ExFormatter<'a>(core::fmt::Formatter<'a>);

/// `core::fmt::DebugStruct`, which builds the output of a struct field by field.
#[verifier::external_type_specification]
#[verifier::external_body]
pub struct ExDebugStruct<'a, 'b: 'a>(core::fmt::DebugStruct<'a, 'b>);

/// `core::fmt::Error`, which says that the sink refused what was written.
#[verifier::external_type_specification]
#[verifier::external_body]
pub struct ExFmtError(core::fmt::Error);

/// All text that was written to a formatter.
pub uninterp spec fn formatter_text(f: Formatter<'_>) -> Seq<char>;

/// `Formatter::write_str`: writes the text as it is, or fails.
pub assume_specification<'a>[ core::fmt::Formatter::<'a>::write_str ](
    f: &mut core::fmt::Formatter<'a>,
    data: &str,
) -> (result: core::fmt::Result)
    ensures
        result is Ok ==> formatter_text(*final(f)) == formatter_text(*old(f)) + data@,
;

/// A field of a struct that is printed: its name and the value that is shown for it.
pub struct ShownField {
    pub name: Seq<char>,
    pub value: &'static dyn Debug,
}

/// A struct that is printed.
pub struct ShownStruct {
    /// The text that the formatter had when the output of the struct began.
    pub before: Seq<char>,
    pub name: Seq<char>,
    pub fields: Seq<ShownField>,
}

/// What the builder of a struct's output was handed so far.
pub uninterp spec fn builder_shown(builder: DebugStruct<'_, '_>) -> ShownStruct;

/// Whether a builder like this, when it is finished, can say this about the success of its
/// output.
pub uninterp spec fn finish_returns(
    builder: DebugStruct<'_, '_>,
    result: core::fmt::Result,
) -> bool;

/// `Formatter::debug_struct`: starts the output of a struct with its name.
pub assume_specification<'a, 'b>[ core::fmt::Formatter::<'a>::debug_struct ](
    f: &'b mut core::fmt::Formatter<'a>,
    name: &str,
) -> (builder: core::fmt::DebugStruct<'b, 'a>)
    ensures
        builder_shown(builder) == (ShownStruct {
            before: formatter_text(*old(f)),
            name: name@,
            fields: Seq::empty(),
        }),
;

/// `DebugStruct::field`: adds a field to the output, behind those that are there, and hands
/// the builder back.
pub assume_specification<'a, 'b: 'a, 'c>[ core::fmt::DebugStruct::<'a, 'b>::field ](
    builder: &'c mut core::fmt::DebugStruct<'a, 'b>,
    name: &str,
    value: &dyn core::fmt::Debug,
) -> (same: &'c mut core::fmt::DebugStruct<'a, 'b>)
    ensures
        builder_shown(*same) == (ShownStruct {
            fields: builder_shown(*old(builder)).fields.push(ShownField { name: name@, value }),
            ..builder_shown(*old(builder))
        }),
        *final(builder) == *final(same),
;

/// `DebugStruct::finish`: ends the output and says whether all of it was taken.
pub assume_specification<'a, 'b: 'a>[ core::fmt::DebugStruct::<'a, 'b>::finish ](
    builder: &mut core::fmt::DebugStruct<'a, 'b>,
) -> (result: core::fmt::Result)
    ensures
        finish_returns(*old(builder), result),
;

/// Whether `result` is what comes of printing, behind the text `before`, a struct with this
/// name and these fields.
pub open spec fn is_printed(
    before: Seq<char>,
    name: Seq<char>,
    fields: Seq<ShownField>,
    result: core::fmt::Result,
) -> bool {
    exists|builder: DebugStruct<'_, '_>| #[trigger]
        finish_returns(builder, result) && builder_shown(builder) == (ShownStruct {
            before,
            name,
            fields,
        })
}

/// A field that shows a number.
pub open spec fn shown_number(name: Seq<char>, n: u32) -> ShownField {
    let value: &dyn Debug = &n;
    ShownField { name, value }
}

/// A field that shows bytes as a list of numbers.
pub open spec fn shown_bytes(name: Seq<char>, bytes: &[u8]) -> ShownField {
    let value: &dyn Debug = &bytes;
    ShownField { name, value }
}

} // verus!
