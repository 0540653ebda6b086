//! The document's object graph: an arena of objects that refer to one
//! another by index, finalized once every page exists.
use crate::layout::{GenerateError, Layout, PageModel, generate_layout, spec_layout};
use crate::render::{Op, OpModel, ops_view};
use crate::template::{Input, Template};
use vstd::prelude::*;

verus! {

/// One object of the document. References are indices into the arena.
#[derive(Debug, PartialEq, Eq)]
pub enum PdfObject {
    /// The shared built-in font (Helvetica, not embedded).
    Font,
    /// A page's content stream.
    Content { ops: Vec<Op> },
    /// A page's resources, binding the font name `F1` to `font`.
    Resources { font: usize },
    /// A page of `width` by `height` ten-thousandths of a point.
    Page { parent: usize, width: i64, height: i64, contents: usize, resources: usize },
    /// The page tree, listing its pages in order.
    Pages { kids: Vec<usize> },
    /// The document catalog.
    Catalog { pages: usize },
}

pub enum ObjModel {
    Font,
    Content { ops: Seq<OpModel> },
    Resources { font: int },
    Page { parent: int, width: int, height: int, contents: int, resources: int },
    Pages { kids: Seq<int> },
    Catalog { pages: int },
}

impl View for PdfObject {
    type V = ObjModel;

    open spec fn view(&self) -> ObjModel {
        match self {
            PdfObject::Font => ObjModel::Font,
            PdfObject::Content { ops } => ObjModel::Content { ops: ops_view(ops@) },
            PdfObject::Resources { font } => ObjModel::Resources { font: *font as int },
            PdfObject::Page { parent, width, height, contents, resources } => ObjModel::Page {
                parent: *parent as int,
                width: *width as int,
                height: *height as int,
                contents: *contents as int,
                resources: *resources as int,
            },
            PdfObject::Pages { kids } => ObjModel::Pages { kids: kids@.map_values(|k: usize| k as int) },
            PdfObject::Catalog { pages } => ObjModel::Catalog { pages: *pages as int },
        }
    }
}

/// The finished object graph; `root` is the index of the catalog.
#[derive(Debug, PartialEq, Eq)]
pub struct ObjectGraph {
    pub objects: Vec<PdfObject>,
    pub root: usize,
}

/// The index of the page tree in the graph of `n` pages.
pub open spec fn pages_index(n: int) -> int {
    3 * n + 1
}

/// The index of the `i`-th page object.
pub open spec fn page_index(i: int) -> int {
    3 * i + 3
}

/// The three objects of page `i`: its content stream, its resources, and
/// the page itself, a child of the page tree.
pub open spec fn page_objects_ok(objs: Seq<ObjModel>, pages: Seq<PageModel>, i: int) -> bool {
    let p = pages[i];
    &&& objs[3 * i + 1] == ObjModel::Content { ops: p.ops }
    &&& objs[3 * i + 2] == ObjModel::Resources { font: 0 }
    &&& objs[3 * i + 3] == (ObjModel::Page {
        parent: pages_index(pages.len() as int),
        width: p.width,
        height: p.height,
        contents: 3 * i + 1,
        resources: 3 * i + 2,
    })
}

/// The object graph of a document with `pages`: the font first, then the
/// three objects of each page in order, then the page tree listing every
/// page, then the catalog, which is the root.
pub open spec fn graph_ok(objs: Seq<ObjModel>, root: int, pages: Seq<PageModel>) -> bool {
    let n = pages.len() as int;
    &&& objs.len() == 3 * n + 3
    &&& root == 3 * n + 2
    &&& objs[0] == ObjModel::Font
    &&& forall|i: int| 0 <= i < n ==> #[trigger] page_objects_ok(objs, pages, i)
    &&& objs[pages_index(n)] == ObjModel::Pages { kids: Seq::new(n as nat, |i: int| page_index(i)) }
    &&& objs[3 * n + 2] == ObjModel::Catalog { pages: pages_index(n) }
}

pub open spec fn objs_model(objs: Seq<PdfObject>) -> Seq<ObjModel> {
    objs.map_values(|o: PdfObject| o@)
}

impl ObjectGraph {
    pub open spec fn model(&self) -> Seq<ObjModel> {
        objs_model(self.objects@)
    }
}

fn copy_op(op: &Op) -> (r: Op)
    ensures
        r@ == op@,
{
    match op {
        Op::BeginText => Op::BeginText,
        Op::SetFont { size } => Op::SetFont { size: *size },
        Op::MoveText { x, y } => Op::MoveText { x: *x, y: *y },
        Op::ShowText(s) => Op::ShowText(s.clone()),
        Op::EndText => Op::EndText,
    }
}

fn copy_ops(ops: &Vec<Op>) -> (r: Vec<Op>)
    ensures
        ops_view(r@) == ops_view(ops@),
{
    let mut r: Vec<Op> = Vec::new();
    let mut i: usize = 0;
    while i < ops.len()
        invariant
            0 <= i <= ops@.len(),
            ops_view(r@) == ops_view(ops@).take(i as int),
        decreases ops@.len() - i,
    {
        let ghost before = r@;
        let op = copy_op(&ops[i]);
        r.push(op);
        assert(r@ == before.push(op));
        assert(ops_view(r@) =~= ops_view(before).push(op@));
        assert(ops_view(r@) =~= ops_view(ops@).take(i + 1));
        i = i + 1;
    }
    assert(ops_view(ops@).take(i as int) =~= ops_view(ops@));
    r
}

/// Builds the object graph of the document laid out in `layout`.
pub fn assemble(layout: &Layout) -> (r: ObjectGraph)
    requires
        3 * layout.pages@.len() + 3 <= usize::MAX,
    ensures
        graph_ok(r.model(), r.root as int, layout@),
{
    let n = layout.pages.len();
    let pages_id = 3 * n + 1;
    let ghost pm = layout@;
    let mut objects: Vec<PdfObject> = Vec::new();
    objects.push(PdfObject::Font);
    let mut kids: Vec<usize> = Vec::new();
    let mut i: usize = 0;
    while i < n
        invariant
            n == layout.pages@.len(),
            pm == layout@,
            pages_id == 3 * n + 1,
            3 * n + 3 <= usize::MAX,
            0 <= i <= n,
            objects@.len() == 3 * i + 1,
            objects@[0]@ == ObjModel::Font,
            forall|j: int| 0 <= j < i ==> #[trigger] page_objects_ok(objs_model(objects@), pm, j),
            kids@.map_values(|k: usize| k as int) == Seq::new(i as nat, |j: int| page_index(j)),
        decreases n - i,
    {
        let page = &layout.pages[i];
        let ghost before = objects@;
        objects.push(PdfObject::Content { ops: copy_ops(&page.ops) });
        objects.push(PdfObject::Resources { font: 0 });
        objects.push(
            PdfObject::Page {
                parent: pages_id,
                width: page.width,
                height: page.height,
                contents: 3 * i + 1,
                resources: 3 * i + 2,
            },
        );
        let ghost kids_before = kids@;
        kids.push(3 * i + 3);
        proof {
            let m = objs_model(objects@);
            let mb = objs_model(before);
            assert(pm[i as int] == layout.pages@[i as int]@);
            assert forall|j: int| 0 <= j < i + 1 implies #[trigger] page_objects_ok(m, pm, j) by {
                if j < i {
                    assert(page_objects_ok(mb, pm, j));
                    assert(m[3 * j + 1] == mb[3 * j + 1]);
                    assert(m[3 * j + 2] == mb[3 * j + 2]);
                    assert(m[3 * j + 3] == mb[3 * j + 3]);
                }
            }
            assert(kids@ == kids_before.push((3 * i + 3) as usize));
            assert(kids@.map_values(|k: usize| k as int) =~= kids_before.map_values(|k: usize| k as int).push(
                3 * i + 3,
            ));
            assert(kids@.map_values(|k: usize| k as int) =~= Seq::new((i + 1) as nat, |j: int| page_index(j)));
        }
        i = i + 1;
    }
    let ghost mid = objs_model(objects@);
    let ghost kids_model = kids@.map_values(|k: usize| k as int);
    objects.push(PdfObject::Pages { kids });
    objects.push(PdfObject::Catalog { pages: pages_id });
    let r = ObjectGraph { objects, root: 3 * n + 2 };
    proof {
        let m = r.model();
        assert forall|j: int| 0 <= j < n implies #[trigger] page_objects_ok(m, pm, j) by {
            assert(page_objects_ok(mid, pm, j));
            assert(m[3 * j + 1] == mid[3 * j + 1]);
            assert(m[3 * j + 2] == mid[3 * j + 2]);
            assert(m[3 * j + 3] == mid[3 * j + 3]);
        }
        assert(m[pages_index(n as int)] == ObjModel::Pages { kids: kids_model });
    }
    r
}

/// Lays out the document that `template` and `inputs` make and builds its
/// object graph: one page per record, or `InvalidTemplate` where the
/// template is not valid.
pub fn generate_document(template: &Template, inputs: &Vec<Input>) -> (r: Result<ObjectGraph, GenerateError>)
    requires
        3 * inputs@.len() + 3 <= usize::MAX,
    ensures
        r is Err <==> !template.valid(),
        r matches Err(e) ==> e == GenerateError::InvalidTemplate,
        r matches Ok(g) ==> spec_layout(*template, inputs@) matches Ok(pages) && graph_ok(
            g.model(),
            g.root as int,
            pages,
        ),
{
    match generate_layout(template, inputs) {
        Ok(layout) => {
            assert(layout@.len() == layout.pages@.len());
            assert(layout@.len() == inputs@.len());
            Ok(assemble(&layout))
        },
        Err(e) => Err(e),
    }
}

} // verus!
