//! The field renderer: value resolution, the coordinate transform and the
//! drawing operations of one field.
use crate::template::{BasePdf, FieldKind, Input, MAX_LENGTH, Schema};
use vstd::prelude::*;

verus! {

/// The size, in points, of the single built-in font.
pub const FONT_SIZE: i64 = 12;

/// A drawing operation of a page's content stream. Coordinates are in
/// ten-thousandths of a point, with the origin at the bottom-left corner.
#[derive(Debug, PartialEq, Eq)]
pub enum Op {
    /// Begins a text object.
    BeginText,
    /// Selects the built-in font at `size` points.
    SetFont { size: i64 },
    /// Moves the text position by `(x, y)`.
    MoveText { x: i64, y: i64 },
    /// Shows a string at the current text position.
    ShowText(String),
    /// Ends a text object.
    EndText,
}

/// The mathematical value of an [`Op`].
pub enum OpModel {
    BeginText,
    SetFont { size: int },
    MoveText { x: int, y: int },
    ShowText(Seq<char>),
    EndText,
}

impl View for Op {
    type V = OpModel;

    open spec fn view(&self) -> OpModel {
        match self {
            Op::BeginText => OpModel::BeginText,
            Op::SetFont { size } => OpModel::SetFont { size: *size as int },
            Op::MoveText { x, y } => OpModel::MoveText { x: *x as int, y: *y as int },
            Op::ShowText(s) => OpModel::ShowText(s@),
            Op::EndText => OpModel::EndText,
        }
    }
}

pub open spec fn ops_view(ops: Seq<Op>) -> Seq<OpModel> {
    ops.map_values(|o: Op| o@)
}

/// A length in micrometres converted to ten-thousandths of a point
/// (one millimetre is 72 / 25.4 points), rounded toward zero.
pub open spec fn to_points(um: int) -> int {
    if um >= 0 {
        um * 3600 / 127
    } else {
        -((-um) * 3600 / 127)
    }
}

/// Converts a length in micrometres to ten-thousandths of a point.
pub fn points(um: i64) -> (r: i64)
    requires
        -3 * MAX_LENGTH <= um <= 3 * MAX_LENGTH,
    ensures
        r == to_points(um as int),
{
    if um >= 0 {
        um * 3600 / 127
    } else {
        let n: i64 = -um;
        -(n * 3600 / 127)
    }
}

/// The design-space vertical position, in micrometres from the bottom of
/// a page of height `page_height`, of the bottom edge of field `s`.
pub open spec fn flipped_y(page_height: int, s: Schema) -> int {
    page_height - s.position.y - s.height
}

/// Where field `s` is drawn on a page of height `page_height`.
pub fn transform(page_height: i64, schema: &Schema) -> (r: (i64, i64))
    requires
        0 < page_height <= MAX_LENGTH,
        schema.valid(),
    ensures
        r.0 == to_points(schema.position.x as int),
        r.1 == to_points(flipped_y(page_height as int, *schema)),
{
    let x = points(schema.position.x);
    let y = points(page_height - schema.position.y - schema.height);
    (x, y)
}

/// The value that field `s` shows for `input`: the record's value for the
/// field's name, else the field's literal content, else the empty string.
pub open spec fn resolve(s: Schema, input: Input) -> Seq<char> {
    match input.spec_get(s.name@) {
        Some(v) => v,
        None => match s.content {
            Some(c) => c@,
            None => Seq::empty(),
        },
    }
}

/// Resolves the value that `schema` shows for `input`.
pub fn resolve_value(schema: &Schema, input: &Input) -> (r: String)
    ensures
        r@ == resolve(*schema, *input),
{
    match input.get(&schema.name) {
        Some(v) => v.clone(),
        None => match &schema.content {
            Some(c) => c.clone(),
            None => String::new(),
        },
    }
}

/// The operations that field `s` contributes for `input` on a page of
/// height `page_height`: a text field with a non-empty value moves to its
/// transformed position, shows the value and moves back; every other
/// field contributes nothing.
pub open spec fn render_spec(s: Schema, input: Input, page_height: int) -> Seq<OpModel> {
    let text = resolve(s, input);
    if s.spec_kind() is Text && text.len() > 0 {
        let x = to_points(s.position.x as int);
        let y = to_points(flipped_y(page_height, s));
        seq![
            OpModel::MoveText { x, y },
            OpModel::ShowText(text),
            OpModel::MoveText { x: -x, y: -y },
        ]
    } else {
        Seq::empty()
    }
}

/// Appends to `ops` the operations of field `schema` for `input`.
pub fn render_schema(schema: &Schema, input: &Input, base_pdf: &BasePdf, ops: &mut Vec<Op>)
    requires
        base_pdf.valid(),
        schema.valid(),
    ensures
        ops_view(final(ops)@) == ops_view(old(ops)@) + render_spec(*schema, *input, base_pdf.height as int),
{
    match schema.kind() {
        FieldKind::Text => {
            let text = resolve_value(schema, input);
            if !text.as_str().is_empty() {
                let (x, y) = transform(base_pdf.height, schema);
                ops.push(Op::MoveText { x, y });
                ops.push(Op::ShowText(text));
                ops.push(Op::MoveText { x: -x, y: -y });
            }
        },
        FieldKind::Image | FieldKind::QrCode | FieldKind::Unknown => {},
    }
    assert(ops_view(ops@) =~= ops_view(old(ops)@) + render_spec(*schema, *input, base_pdf.height as int));
}

} // verus!
