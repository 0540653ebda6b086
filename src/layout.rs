//! The document assembler: one page per input record, each holding the
//! operations of every field of the template in paint order.
use crate::render::{
    FONT_SIZE, Op, OpModel, ops_view, points, render_schema, render_spec, to_points,
};
use crate::template::{Input, Schema, Template};
use vstd::prelude::*;

verus! {

/// Why a document could not be produced.
#[derive(Debug, PartialEq, Eq, Structural)]
pub enum GenerateError {
    /// The template's page geometry or one of its fields is out of range.
    InvalidTemplate,
    /// The finished document could not be encoded.
    EncodingError,
}

/// One page of the document: its size, in ten-thousandths of a point, and
/// the operations of its content stream.
#[derive(Debug, PartialEq, Eq)]
pub struct Page {
    pub width: i64,
    pub height: i64,
    pub ops: Vec<Op>,
}

pub struct PageModel {
    pub width: int,
    pub height: int,
    pub ops: Seq<OpModel>,
}

impl View for Page {
    type V = PageModel;

    open spec fn view(&self) -> PageModel {
        PageModel { width: self.width as int, height: self.height as int, ops: ops_view(self.ops@) }
    }
}

/// The pages of a document, in the order of the records they were made from.
#[derive(Debug, PartialEq, Eq)]
pub struct Layout {
    pub pages: Vec<Page>,
}

impl View for Layout {
    type V = Seq<PageModel>;

    open spec fn view(&self) -> Seq<PageModel> {
        self.pages@.map_values(|p: Page| p@)
    }
}

/// The operations of the fields of one page of the template, in order.
pub open spec fn group_ops(fields: Seq<Schema>, input: Input, page_height: int) -> Seq<OpModel>
    decreases fields.len(),
{
    if fields.len() == 0 {
        Seq::empty()
    } else {
        group_ops(fields.drop_last(), input, page_height) + render_spec(fields.last(), input, page_height)
    }
}

/// The operations of every field of the template, page after page.
pub open spec fn template_ops(groups: Seq<Vec<Schema>>, input: Input, page_height: int) -> Seq<OpModel>
    decreases groups.len(),
{
    if groups.len() == 0 {
        Seq::empty()
    } else {
        template_ops(groups.drop_last(), input, page_height) + group_ops(groups.last()@, input, page_height)
    }
}

/// The page made from `input`: the template's size, and a single text
/// object that sets the font and holds the operations of every field.
pub open spec fn page_for(t: Template, input: Input) -> PageModel {
    PageModel {
        width: to_points(t.base_pdf.width as int),
        height: to_points(t.base_pdf.height as int),
        ops: seq![OpModel::BeginText, OpModel::SetFont { size: FONT_SIZE as int }]
            + template_ops(t.schemas@, input, t.base_pdf.height as int) + seq![OpModel::EndText],
    }
}

/// The document that template `t` and `inputs` make: one page per record,
/// in order, or `InvalidTemplate` where the template is not valid.
pub open spec fn spec_layout(t: Template, inputs: Seq<Input>) -> Result<Seq<PageModel>, GenerateError> {
    if t.valid() {
        Ok(inputs.map_values(|i: Input| page_for(t, i)))
    } else {
        Err(GenerateError::InvalidTemplate)
    }
}

/// Lays out the document that `template` and `inputs` make.
pub fn generate_layout(template: &Template, inputs: &Vec<Input>) -> (r: Result<Layout, GenerateError>)
    ensures
        r matches Ok(l) ==> spec_layout(*template, inputs@) == Ok::<Seq<PageModel>, GenerateError>(l@),
        r matches Err(e) ==> spec_layout(*template, inputs@) == Err::<Seq<PageModel>, GenerateError>(e),
{
    if !template.is_valid() {
        return Err(GenerateError::InvalidTemplate);
    }
    let width = points(template.base_pdf.width);
    let height = points(template.base_pdf.height);
    let mut pages: Vec<Page> = Vec::new();
    let mut i: usize = 0;
    while i < inputs.len()
        invariant
            template.valid(),
            width == to_points(template.base_pdf.width as int),
            height == to_points(template.base_pdf.height as int),
            0 <= i <= inputs@.len(),
            pages@.len() == i,
            forall|k: int| 0 <= k < i ==> (#[trigger] pages@[k])@ == page_for(*template, inputs@[k]),
        decreases inputs@.len() - i,
    {
        let ops = page_ops(template, &inputs[i]);
        pages.push(Page { width, height, ops });
        i = i + 1;
    }
    let layout = Layout { pages };
    assert(layout@ =~= inputs@.map_values(|inp: Input| page_for(*template, inp)));
    Ok(layout)
}

/// The content of the page made from `input`.
fn page_ops(template: &Template, input: &Input) -> (r: Vec<Op>)
    requires
        template.valid(),
    ensures
        ops_view(r@) == page_for(*template, *input).ops,
{
    let mut ops: Vec<Op> = Vec::new();
    ops.push(Op::BeginText);
    ops.push(Op::SetFont { size: FONT_SIZE });
    assert(ops_view(ops@) =~= seq![OpModel::BeginText, OpModel::SetFont { size: FONT_SIZE as int }]);
    let ghost prefix = ops_view(ops@);
    let ghost h = template.base_pdf.height as int;
    let mut p: usize = 0;
    while p < template.schemas.len()
        invariant
            template.valid(),
            h == template.base_pdf.height as int,
            0 <= p <= template.schemas@.len(),
            ops_view(ops@) == prefix + template_ops(template.schemas@.take(p as int), *input, h),
        decreases template.schemas@.len() - p,
    {
        let group = &template.schemas[p];
        let ghost before = ops_view(ops@);
        let mut f: usize = 0;
        while f < group.len()
            invariant
                template.valid(),
                h == template.base_pdf.height as int,
                0 <= p < template.schemas@.len(),
                *group == template.schemas@[p as int],
                0 <= f <= group@.len(),
                ops_view(ops@) == before + group_ops(group@.take(f as int), *input, h),
            decreases group@.len() - f,
        {
            assert(template.schemas@[p as int]@[f as int].valid());
            render_schema(&group[f], input, &template.base_pdf, &mut ops);
            assert(group@.take(f + 1).drop_last() =~= group@.take(f as int));
            assert(group@.take(f + 1).last() == group@[f as int]);
            assert(group_ops(group@.take(f + 1), *input, h) == group_ops(group@.take(f as int), *input, h)
                + render_spec(group@[f as int], *input, h));
            assert(ops_view(ops@) =~= before + group_ops(group@.take(f + 1), *input, h));
            f = f + 1;
        }
        assert(group@.take(f as int) =~= group@);
        assert(template.schemas@.take(p + 1).drop_last() =~= template.schemas@.take(p as int));
        assert(template.schemas@.take(p + 1).last() == template.schemas@[p as int]);
        assert(ops_view(ops@) =~= prefix + template_ops(template.schemas@.take(p + 1), *input, h));
        p = p + 1;
    }
    assert(template.schemas@.take(p as int) =~= template.schemas@);
    ops.push(Op::EndText);
    assert(ops_view(ops@) =~= page_for(*template, *input).ops);
    ops
}

} // verus!
