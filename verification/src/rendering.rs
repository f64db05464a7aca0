//! The pretty `Debug` text (`{:#?}`) of the video source types, as the
//! messages of pipeline errors show them: a unit variant by its name, a
//! tuple variant and a struct over indented lines, each nested level four
//! spaces deeper, and texts as a string's `Debug` writes them.

use vstd::prelude::*;

use crate::messages::{push_quoted, quoted};
use crate::types::{
    VideoEncodeType, VideoSourceGst, VideoSourceGstType, VideoSourceLocal, VideoSourceRedirect,
    VideoSourceType,
};

verus! {

/// Four spaces per level.
pub open spec fn indent(level: nat) -> Seq<char>
    decreases level,
{
    if level == 0 {
        Seq::<char>::empty()
    } else {
        indent((level - 1) as nat) + "    "@
    }
}

/// A tuple variant of one field, at the given depth.
pub open spec fn tuple_text(name: Seq<char>, field: Seq<char>, level: nat) -> Seq<char> {
    name + "(\n"@ + indent(level + 1) + field + ",\n"@ + indent(level) + ")"@
}

/// One field of a struct at the given depth.
pub open spec fn field_line(name: Seq<char>, value: Seq<char>, level: nat) -> Seq<char> {
    indent(level + 1) + name + ": "@ + value + ",\n"@
}

pub open spec fn encode_text(e: VideoEncodeType, level: nat) -> Seq<char> {
    match e {
        VideoEncodeType::Unknown(name) => tuple_text("Unknown"@, quoted(name@), level),
        VideoEncodeType::H265 => "H265"@,
        VideoEncodeType::H264 => "H264"@,
        VideoEncodeType::MJPG => "MJPG"@,
        VideoEncodeType::YUYV => "YUYV"@,
    }
}

pub open spec fn local_text(l: VideoSourceLocal, level: nat) -> Seq<char> {
    "VideoSourceLocal {\n"@ + field_line("name"@, quoted(l.name@), level) + field_line(
        "device_path"@,
        quoted(l.device_path@),
        level,
    ) + indent(level) + "}"@
}

pub open spec fn gst_type_text(t: VideoSourceGstType, level: nat) -> Seq<char> {
    match t {
        VideoSourceGstType::Local(l) => tuple_text("Local"@, local_text(l, level + 1), level),
        VideoSourceGstType::Fake(pattern) => tuple_text("Fake"@, quoted(pattern@), level),
    }
}

pub open spec fn gst_text(g: VideoSourceGst, level: nat) -> Seq<char> {
    "VideoSourceGst {\n"@ + field_line("name"@, quoted(g.name@), level) + field_line(
        "source"@,
        gst_type_text(g.source, level + 1),
        level,
    ) + indent(level) + "}"@
}

pub open spec fn redirect_text(r: VideoSourceRedirect, level: nat) -> Seq<char> {
    "VideoSourceRedirect {\n"@ + field_line("name"@, quoted(r.name@), level) + indent(level) + "}"@
}

pub open spec fn source_text(s: VideoSourceType, level: nat) -> Seq<char> {
    match s {
        VideoSourceType::Gst(g) => tuple_text("Gst"@, gst_text(g, level + 1), level),
        VideoSourceType::Local(l) => tuple_text("Local"@, local_text(l, level + 1), level),
        VideoSourceType::Redirect(r) => tuple_text("Redirect"@, redirect_text(r, level + 1), level),
    }
}

fn push_indent(out: &mut String, level: usize)
    ensures
        final(out)@ == old(out)@ + indent(level as nat),
    decreases level,
{
    if level > 0 {
        push_indent(out, level - 1);
        out.append("    ");
        assert(final(out)@ =~= old(out)@ + indent(level as nat));
    } else {
        assert(final(out)@ =~= old(out)@ + indent(level as nat));
    }
}

/// Appends the opening of a tuple variant and the indentation of its field.
fn push_tuple_open(out: &mut String, name: &str, level: usize)
    requires
        level < 64,
    ensures
        final(out)@ == old(out)@ + name@ + "(\n"@ + indent((level + 1) as nat),
{
    out.append(name);
    out.append("(\n");
    push_indent(out, level + 1);
}

/// Appends the closing of a tuple variant after its field.
fn push_tuple_close(out: &mut String, level: usize)
    requires
        level < 64,
    ensures
        final(out)@ == old(out)@ + ",\n"@ + indent(level as nat) + ")"@,
{
    out.append(",\n");
    push_indent(out, level);
    out.append(")");
}

/// Appends the start of a struct field line, up to its value.
fn push_field_open(out: &mut String, name: &str, level: usize)
    requires
        level < 64,
    ensures
        final(out)@ == old(out)@ + indent((level + 1) as nat) + name@ + ": "@,
{
    push_indent(out, level + 1);
    out.append(name);
    out.append(": ");
}

/// Appends the closing of a struct.
fn push_struct_close(out: &mut String, level: usize)
    requires
        level < 64,
    ensures
        final(out)@ == old(out)@ + indent(level as nat) + "}"@,
{
    push_indent(out, level);
    out.append("}");
}

/// Appends the pretty `Debug` text of an encoding.
pub fn push_encode_text(out: &mut String, e: &VideoEncodeType, level: usize)
    requires
        level < 60,
    ensures
        final(out)@ == old(out)@ + encode_text(*e, level as nat),
{
    match e {
        VideoEncodeType::Unknown(name) => {
            push_tuple_open(out, "Unknown", level);
            push_quoted(out, name.as_str());
            push_tuple_close(out, level);
            assert(final(out)@ =~= old(out)@ + encode_text(*e, level as nat));
        },
        VideoEncodeType::H265 => out.append("H265"),
        VideoEncodeType::H264 => out.append("H264"),
        VideoEncodeType::MJPG => out.append("MJPG"),
        VideoEncodeType::YUYV => out.append("YUYV"),
    }
}

fn push_local_text(out: &mut String, l: &VideoSourceLocal, level: usize)
    requires
        level < 60,
    ensures
        final(out)@ == old(out)@ + local_text(*l, level as nat),
{
    out.append("VideoSourceLocal {\n");
    push_field_open(out, "name", level);
    push_quoted(out, l.name.as_str());
    out.append(",\n");
    push_field_open(out, "device_path", level);
    push_quoted(out, l.device_path.as_str());
    out.append(",\n");
    push_struct_close(out, level);
    assert(final(out)@ =~= old(out)@ + local_text(*l, level as nat));
}

fn push_gst_type_text(out: &mut String, t: &VideoSourceGstType, level: usize)
    requires
        level < 59,
    ensures
        final(out)@ == old(out)@ + gst_type_text(*t, level as nat),
{
    match t {
        VideoSourceGstType::Local(l) => {
            push_tuple_open(out, "Local", level);
            push_local_text(out, l, level + 1);
            push_tuple_close(out, level);
        },
        VideoSourceGstType::Fake(pattern) => {
            push_tuple_open(out, "Fake", level);
            push_quoted(out, pattern.as_str());
            push_tuple_close(out, level);
        },
    }
    assert(final(out)@ =~= old(out)@ + gst_type_text(*t, level as nat));
}

/// Appends the pretty `Debug` text of a GStreamer-made source.
pub fn push_gst_text(out: &mut String, g: &VideoSourceGst, level: usize)
    requires
        level < 58,
    ensures
        final(out)@ == old(out)@ + gst_text(*g, level as nat),
{
    out.append("VideoSourceGst {\n");
    push_field_open(out, "name", level);
    push_quoted(out, g.name.as_str());
    out.append(",\n");
    push_field_open(out, "source", level);
    push_gst_type_text(out, &g.source, level + 1);
    out.append(",\n");
    push_struct_close(out, level);
    assert(final(out)@ =~= old(out)@ + gst_text(*g, level as nat));
}

fn push_redirect_text(out: &mut String, r: &VideoSourceRedirect, level: usize)
    requires
        level < 60,
    ensures
        final(out)@ == old(out)@ + redirect_text(*r, level as nat),
{
    out.append("VideoSourceRedirect {\n");
    push_field_open(out, "name", level);
    push_quoted(out, r.name.as_str());
    out.append(",\n");
    push_struct_close(out, level);
    assert(final(out)@ =~= old(out)@ + redirect_text(*r, level as nat));
}

/// Appends the pretty `Debug` text of a source kind.
pub fn push_source_text(out: &mut String, s: &VideoSourceType, level: usize)
    requires
        level < 50,
    ensures
        final(out)@ == old(out)@ + source_text(*s, level as nat),
{
    match s {
        VideoSourceType::Gst(g) => {
            push_tuple_open(out, "Gst", level);
            push_gst_text(out, g, level + 1);
            push_tuple_close(out, level);
            assert(final(out)@ =~= old(out)@ + source_text(*s, level as nat));
        },
        VideoSourceType::Local(l) => {
            push_tuple_open(out, "Local", level);
            push_local_text(out, l, level + 1);
            push_tuple_close(out, level);
            assert(final(out)@ =~= old(out)@ + source_text(*s, level as nat));
        },
        VideoSourceType::Redirect(r) => {
            push_tuple_open(out, "Redirect", level);
            push_redirect_text(out, r, level + 1);
            push_tuple_close(out, level);
            assert(final(out)@ =~= old(out)@ + source_text(*s, level as nat));
        },
    }
}

} // verus!
