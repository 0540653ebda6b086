//! Properties that hold of every layout.
use crate::graph::{ObjModel, graph_ok, page_index, page_objects_ok, pages_index};
use crate::layout::{PageModel, group_ops, page_for, spec_layout};
use crate::render::{OpModel, render_spec, resolve, to_points};
use crate::template::{BasePdf, Input, Schema, Template};
use vstd::prelude::*;

verus! {

/// A valid template and `R` records make exactly `R` pages, each of the
/// template's width and height.
pub proof fn page_count_and_size(t: Template, inputs: Seq<Input>)
    requires
        t.valid(),
    ensures
        spec_layout(t, inputs) matches Ok(pages) && pages.len() == inputs.len() && forall|i: int|
            0 <= i < pages.len() ==> (#[trigger] pages[i]).width == to_points(t.base_pdf.width as int)
                && pages[i].height == to_points(t.base_pdf.height as int),
{
}

/// No records make a document of no pages.
pub proof fn no_records_no_pages(t: Template)
    requires
        t.valid(),
    ensures
        spec_layout(t, Seq::empty()) matches Ok(pages) && pages.len() == 0,
{
}

/// An invalid template makes no document.
pub proof fn invalid_template_rejected(t: Template, inputs: Seq<Input>)
    requires
        !t.valid(),
    ensures
        spec_layout(t, inputs) == Err::<Seq<PageModel>, _>(crate::layout::GenerateError::InvalidTemplate),
{
}

/// The same template and records always make the same document.
pub proof fn layout_deterministic(t1: Template, i1: Seq<Input>, t2: Template, i2: Seq<Input>)
    requires
        t1 == t2,
        i1 == i2,
    ensures
        spec_layout(t1, i1) == spec_layout(t2, i2),
{
}

/// A text field is drawn at the design position flipped about the page
/// height and anchored by its bottom edge: `(x, H - y - h)`.
pub proof fn text_position(s: Schema, input: Input, base: BasePdf)
    requires
        s.spec_kind() is Text,
        resolve(s, input).len() > 0,
    ensures
        render_spec(s, input, base.height as int)[0] == (OpModel::MoveText {
            x: to_points(s.position.x as int),
            y: to_points(base.height - s.position.y - s.height),
        }),
{
}

/// The record's value overrides the literal content, which overrides the
/// empty string; an empty value draws nothing.
pub proof fn value_precedence(s: Schema, input: Input, h: int)
    requires
        s.spec_kind() is Text,
    ensures
        input.spec_get(s.name@) matches Some(v) ==> resolve(s, input) == v,
        input.spec_get(s.name@) is None && s.content is Some ==> resolve(s, input) == s.content->Some_0@,
        input.spec_get(s.name@) is None && s.content is None ==> render_spec(s, input, h).len() == 0,
        resolve(s, input).len() == 0 ==> render_spec(s, input, h).len() == 0,
        resolve(s, input).len() > 0 ==> render_spec(s, input, h).len() == 3
            && render_spec(s, input, h)[1] == OpModel::ShowText(resolve(s, input)),
{
}

/// Fields of a kind other than text draw nothing, so they never hold up
/// the fields around them.
pub proof fn other_kinds_draw_nothing(s: Schema, input: Input, h: int)
    requires
        !(s.spec_kind() is Text),
    ensures
        render_spec(s, input, h).len() == 0,
{
}

/// On a page of fields that holds a text field and a field of another
/// kind, the page's operations are exactly those of the text field.
pub proof fn mixed_kinds_keep_text(text: Schema, other: Schema, input: Input, h: int)
    requires
        text.spec_kind() is Text,
        !(other.spec_kind() is Text),
    ensures
        group_ops(seq![text, other], input, h) == render_spec(text, input, h),
        group_ops(seq![other, text], input, h) == render_spec(text, input, h),
{
    assert(seq![text, other].drop_last() =~= seq![text]);
    assert(seq![text].drop_last() =~= Seq::<Schema>::empty());
    assert(seq![other, text].drop_last() =~= seq![other]);
    assert(seq![other].drop_last() =~= Seq::<Schema>::empty());
    assert(group_ops(Seq::<Schema>::empty(), input, h) =~= Seq::<OpModel>::empty());
    assert(seq![text].last() == text);
    assert(seq![other].last() == other);
    assert(seq![text, other].last() == other);
    assert(seq![other, text].last() == text);
    assert(group_ops(seq![text], input, h) =~= render_spec(text, input, h));
    assert(group_ops(seq![other], input, h) =~= Seq::<OpModel>::empty());
    assert(group_ops(seq![text, other], input, h) =~= render_spec(text, input, h));
    assert(group_ops(seq![other, text], input, h) =~= render_spec(text, input, h));
}

/// Whether `o` is a page object, child of `parent`, of the given size.
pub open spec fn is_child_page(o: ObjModel, parent: int, width: int, height: int) -> bool {
    o matches ObjModel::Page { parent: p, width: w, height: h, .. } && p == parent && w == width && h == height
}

/// In the object graph of a valid template and `R` records, the page
/// tree lists exactly `R` pages; each is a page object whose parent is the
/// page tree and whose size is the template's, and the catalog, the root,
/// refers to the page tree.
pub proof fn graph_pages(t: Template, inputs: Seq<Input>, objs: Seq<ObjModel>, root: int)
    requires
        t.valid(),
        graph_ok(objs, root, inputs.map_values(|i: Input| page_for(t, i))),
    ensures
        objs[root] == (ObjModel::Catalog { pages: pages_index(inputs.len() as int) }),
        objs[pages_index(inputs.len() as int)] == (ObjModel::Pages {
            kids: Seq::new(inputs.len(), |i: int| page_index(i)),
        }),
        forall|i: int|
            0 <= i < inputs.len() ==> #[trigger] is_child_page(
                objs[page_index(i)],
                pages_index(inputs.len() as int),
                to_points(t.base_pdf.width as int),
                to_points(t.base_pdf.height as int),
            ),
{
    let pages = inputs.map_values(|i: Input| page_for(t, i));
    assert forall|i: int| 0 <= i < inputs.len() implies #[trigger] is_child_page(
        objs[page_index(i)],
        pages_index(inputs.len() as int),
        to_points(t.base_pdf.width as int),
        to_points(t.base_pdf.height as int),
    ) by {
        assert(page_objects_ok(objs, pages, i));
    }
}

/// With no records the graph still holds the font, an empty page tree and
/// the catalog that refers to it.
pub proof fn graph_without_records(objs: Seq<ObjModel>, root: int)
    requires
        graph_ok(objs, root, Seq::empty()),
    ensures
        objs == seq![
            ObjModel::Font,
            ObjModel::Pages { kids: Seq::empty() },
            ObjModel::Catalog { pages: 1 },
        ],
        root == 2,
{
    assert(Seq::new(0, |i: int| page_index(i)) =~= Seq::<int>::empty());
    assert(objs =~= seq![
        ObjModel::Font,
        ObjModel::Pages { kids: Seq::empty() },
        ObjModel::Catalog { pages: 1 },
    ]);
}

} // verus!
