//! Human-readable rendering of decoded packets, for inspection.

use crate::adaptation::{AdaptationField, AdaptationFieldHeader};
use crate::header::TransportPacketHeader;
use crate::packet::TransportPacket;
use vstd::prelude::*;
use vstd::string::*;

verus! {

/// The character of a digit below sixteen: decimal digits, then `a` to `f`.
pub open spec fn digit(value: int) -> char {
    "0123456789abcdef"@[value]
}

/// `count` zeros.
pub open spec fn zeros(count: nat) -> Seq<char> {
    Seq::new(count, |i: int| '0')
}

/// The digits of `value` in base `radix`, most significant first, behind as
/// many zeros as it takes to fill `width` characters. Zero has one digit; a
/// value with more than `width` digits is not cut.
pub open spec fn digits(value: nat, radix: nat, width: nat) -> Seq<char>
    decreases value,
    when radix >= 2
    via digits_decreases
{
    if value < radix {
        zeros(less_one(width)).push(digit(value as int))
    } else {
        digits(value / radix, radix, less_one(width)).push(digit((value % radix) as int))
    }
}

/// One less than `width`, and zero for zero.
pub open spec fn less_one(width: nat) -> nat {
    if width > 0 {
        (width - 1) as nat
    } else {
        0
    }
}

#[via_fn]
proof fn digits_decreases(value: nat, radix: nat, width: nat) {
    if value >= radix {
        assert(value / radix < value) by (nonlinear_arith)
            requires
                radix >= 2,
                value >= radix,
        ;
    }
}

/// `true` or `false`.
pub open spec fn bool_text(value: bool) -> Seq<char> {
    if value {
        "true"@
    } else {
        "false"@
    }
}

/// The one-character string of a digit.
fn digit_str(value: u16) -> (text: &'static str)
    requires
        value < 16,
    ensures
        text@ == seq![digit(value as int)],
{
    let all: &'static str = "0123456789abcdef";
    proof {
        reveal_strlit("0123456789abcdef");
    }
    let text: &'static str = all.substring_ascii(value as usize, value as usize + 1);
    assert(text@ =~= seq![digit(value as int)]);
    text
}

/// Appends `count` zeros.
fn append_zeros(out: &mut String, count: usize)
    ensures
        final(out)@ == old(out)@ + zeros(count as nat),
{
    let mut done: usize = 0;
    assert(out@ =~= old(out)@ + zeros(0));
    while done < count
        invariant
            done <= count,
            out@ == old(out)@ + zeros(done as nat),
        decreases count - done,
    {
        out.append("0");
        proof {
            reveal_strlit("0");
            assert(out@ =~= old(out)@ + zeros((done + 1) as nat));
        }
        done = done + 1;
    }
}

/// Appends the digits of `value` in base `radix`, filled to `width`.
fn append_digits(out: &mut String, value: u16, radix: u16, width: usize)
    requires
        2 <= radix <= 16,
    ensures
        final(out)@ == old(out)@ + digits(value as nat, radix as nat, width as nat),
    decreases value,
{
    let lead_width: usize = if width > 0 {
        width - 1
    } else {
        0
    };
    if value >= radix {
        assert(value / radix < value) by (nonlinear_arith)
            requires
                radix >= 2,
                value >= radix,
        ;
        append_digits(out, value / radix, radix, lead_width);
        out.append(digit_str(value % radix));
        assert(out@ =~= old(out)@ + digits(value as nat, radix as nat, width as nat));
    } else {
        append_zeros(out, lead_width);
        out.append(digit_str(value));
        assert(out@ =~= old(out)@ + digits(value as nat, radix as nat, width as nat));
    }
}

/// Appends `true` or `false`.
fn append_bool(out: &mut String, value: bool)
    ensures
        final(out)@ == old(out)@ + bool_text(value),
{
    if value {
        out.append("true");
    } else {
        out.append("false");
    }
}

impl TransportPacketHeader {
    /// The header's fields, one to a line, each line behind a tab: the three
    /// flags as `true` or `false`, the identifier in hexadecimal, the two
    /// control fields in two binary digits, the counter in decimal and the
    /// raw byte in eight binary digits.
    pub open spec fn text(&self) -> Seq<char> {
        "\ttransport_error_indicator: "@
            + bool_text(self.transport_error_indicator)
            + "\n\tpayload_unit_start_indicator: "@
            + bool_text(self.payload_unit_start_indicator)
            + "\n\ttransport_priority: "@
            + bool_text(self.transport_priority)
            + "\n\tpid: 0x"@
            + digits(self.pid as nat, 16, 1)
            + "\n\ttransport_scrambling_control: 0b"@
            + digits(self.transport_scrambling_control as nat, 2, 2)
            + "\n\tadaptation_field_control: 0b"@
            + digits(self.adaptation_field_control as nat, 2, 2)
            + "\n\tcontinuity_counter: "@
            + digits(self.continuity_counter as nat, 10, 1)
            + "\n\tfinal_byte: "@
            + digits(self.final_byte as nat, 2, 8)
    }

    /// Renders the header for inspection.
    pub fn to_text(&self) -> (text: String)
        ensures
            text@ == self.text(),
    {
        let mut out: String = String::new();
        out.append("\ttransport_error_indicator: ");
        append_bool(&mut out, self.transport_error_indicator);
        out.append("\n\tpayload_unit_start_indicator: ");
        append_bool(&mut out, self.payload_unit_start_indicator);
        out.append("\n\ttransport_priority: ");
        append_bool(&mut out, self.transport_priority);
        out.append("\n\tpid: 0x");
        append_digits(&mut out, self.pid, 16, 1);
        out.append("\n\ttransport_scrambling_control: 0b");
        append_digits(&mut out, self.transport_scrambling_control as u16, 2, 2);
        out.append("\n\tadaptation_field_control: 0b");
        append_digits(&mut out, self.adaptation_field_control as u16, 2, 2);
        out.append("\n\tcontinuity_counter: ");
        append_digits(&mut out, self.continuity_counter as u16, 10, 1);
        out.append("\n\tfinal_byte: ");
        append_digits(&mut out, self.final_byte as u16, 2, 8);
        assert(out@ =~= self.text());
        out
    }
}

impl AdaptationFieldHeader {
    /// The type's name and, in braces, each flag by name with `true` or
    /// `false`.
    pub open spec fn text(&self) -> Seq<char> {
        "AdaptationFieldHeader { discontinuity_indicator: "@
            + bool_text(self.discontinuity_indicator)
            + ", random_access_indicator: "@
            + bool_text(self.random_access_indicator)
            + ", elementary_stream_priority_indicator: "@
            + bool_text(self.elementary_stream_priority_indicator)
            + ", pcr_flag: "@
            + bool_text(self.pcr_flag)
            + ", opcr_flag: "@
            + bool_text(self.opcr_flag)
            + ", splicing_point_flag: "@
            + bool_text(self.splicing_point_flag)
            + ", transport_private_data_flag: "@
            + bool_text(self.transport_private_data_flag)
            + ", adaptation_field_extension_flag: "@
            + bool_text(self.adaptation_field_extension_flag)
            + " }"@
    }

    /// Renders the flags for inspection.
    pub fn to_text(&self) -> (text: String)
        ensures
            text@ == self.text(),
    {
        let mut out: String = String::new();
        out.append("AdaptationFieldHeader { discontinuity_indicator: ");
        append_bool(&mut out, self.discontinuity_indicator);
        out.append(", random_access_indicator: ");
        append_bool(&mut out, self.random_access_indicator);
        out.append(", elementary_stream_priority_indicator: ");
        append_bool(&mut out, self.elementary_stream_priority_indicator);
        out.append(", pcr_flag: ");
        append_bool(&mut out, self.pcr_flag);
        out.append(", opcr_flag: ");
        append_bool(&mut out, self.opcr_flag);
        out.append(", splicing_point_flag: ");
        append_bool(&mut out, self.splicing_point_flag);
        out.append(", transport_private_data_flag: ");
        append_bool(&mut out, self.transport_private_data_flag);
        out.append(", adaptation_field_extension_flag: ");
        append_bool(&mut out, self.adaptation_field_extension_flag);
        out.append(" }");
        assert(out@ =~= self.text());
        out
    }
}

impl AdaptationField {
    /// The type's name and, in braces, the length in decimal and the flags,
    /// wrapped in `Some(..)`, or `None` where there are none.
    pub open spec fn text(&self) -> Seq<char> {
        "AdaptationField { length: "@
            + digits(self.length as nat, 10, 1)
            + ", header: "@
            + (match self.header {
                Some(header) => "Some("@ + header.text() + ")"@,
                None => "None"@,
            })
            + " }"@
    }

    /// Renders the field for inspection.
    pub fn to_text(&self) -> (text: String)
        ensures
            text@ == self.text(),
    {
        let mut out: String = String::new();
        out.append("AdaptationField { length: ");
        append_digits(&mut out, self.length as u16, 10, 1);
        out.append(", header: ");
        match &self.header {
            Some(header) => {
                out.append("Some(");
                out.append(header.to_text().as_str());
                out.append(")");
            },
            None => {
                out.append("None");
            },
        }
        out.append(" }");
        assert(out@ =~= self.text());
        out
    }
}

impl TransportPacket {
    /// A heading, the header's text, and the adaptation field, wrapped in
    /// `Some(..)`, or `None` where the packet has none.
    pub open spec fn text(&self) -> Seq<char> {
        "transport packet:\nheader:\n"@
            + self.header.text()
            + "\nadaptation_field:\n\t"@
            + (match self.adaptation_field {
                Some(field) => "Some("@ + field.text() + ")"@,
                None => "None"@,
            })
    }

    /// Renders the packet for inspection.
    pub fn to_text(&self) -> (text: String)
        ensures
            text@ == self.text(),
    {
        let mut out: String = String::new();
        out.append("transport packet:\nheader:\n");
        out.append(self.header.to_text().as_str());
        out.append("\nadaptation_field:\n\t");
        match &self.adaptation_field {
            Some(field) => {
                out.append("Some(");
                out.append(field.to_text().as_str());
                out.append(")");
            },
            None => {
                out.append("None");
            },
        }
        assert(out@ =~= self.text());
        out
    }
}

} // verus!
