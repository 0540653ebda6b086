use pdfme::graph::{assemble, generate_document, PdfObject};
use pdfme::layout::{generate_layout, GenerateError, Layout};
use pdfme::render::{points, render_schema, resolve_value, transform, Op, FONT_SIZE};
use pdfme::template::{BasePdf, FieldKind, Input, Position, Schema, Template, MAX_LENGTH};

fn field(name: &str, kind: &str, x: i64, y: i64, width: i64, height: i64, content: Option<&str>) -> Schema {
    Schema {
        name: name.to_string(),
        schema_type: kind.to_string(),
        position: Position { x, y },
        width,
        height,
        content: content.map(|c| c.to_string()),
    }
}

fn a4(schemas: Vec<Vec<Schema>>) -> Template {
    Template { base_pdf: BasePdf { width: 210_000, height: 297_000 }, schemas }
}

fn record(pairs: &[(&str, &str)]) -> Input {
    Input { fields: pairs.iter().map(|(k, v)| (k.to_string(), v.to_string())).collect() }
}

fn layout_of(t: &Template, inputs: &Vec<Input>) -> Layout {
    match generate_layout(t, inputs) {
        Ok(l) => l,
        Err(e) => panic!("unexpected error {:?}", e),
    }
}

fn text_ops(ops: &[Op]) -> Vec<String> {
    ops.iter()
        .filter_map(|o| match o {
            Op::ShowText(s) => Some(s.clone()),
            _ => None,
        })
        .collect()
}

#[test]
fn test_generate_simple_pdf() {
    let template = a4(vec![vec![field("name", "text", 10_000, 10_000, 100_000, 10_000, None)]]);
    let inputs = vec![record(&[("name", "John Doe")])];
    let layout = layout_of(&template, &inputs);
    assert_eq!(layout.pages.len(), 1);
    assert!(!layout.pages[0].ops.is_empty());
    assert_eq!(text_ops(&layout.pages[0].ops), vec!["John Doe".to_string()]);
}

#[test]
fn end_to_end_example() {
    let template = a4(vec![vec![field("name", "text", 20_000, 20_000, 100_000, 10_000, None)]]);
    let inputs = vec![record(&[("name", "John Doe")])];
    let layout = layout_of(&template, &inputs);
    assert_eq!(layout.pages.len(), 1);
    let page = &layout.pages[0];
    assert_eq!(page.width, 5_952_755);
    assert_eq!(page.height, 8_418_897);
    assert_eq!(
        page.ops,
        vec![
            Op::BeginText,
            Op::SetFont { size: 12 },
            Op::MoveText { x: 566_929, y: 7_568_503 },
            Op::ShowText("John Doe".to_string()),
            Op::MoveText { x: -566_929, y: -7_568_503 },
            Op::EndText,
        ]
    );
}

#[test]
fn one_page_per_record_with_template_size() {
    let template = a4(vec![
        vec![field("a", "text", 0, 0, 10_000, 10_000, None)],
        vec![field("b", "text", 0, 20_000, 10_000, 10_000, None)],
    ]);
    let inputs = vec![record(&[("a", "1")]), record(&[("b", "2")]), record(&[])];
    let layout = layout_of(&template, &inputs);
    assert_eq!(layout.pages.len(), 3);
    for page in &layout.pages {
        assert_eq!(page.width, 5_952_755);
        assert_eq!(page.height, 8_418_897);
    }
    assert_eq!(text_ops(&layout.pages[0].ops), vec!["1".to_string()]);
    assert_eq!(text_ops(&layout.pages[1].ops), vec!["2".to_string()]);
    assert!(text_ops(&layout.pages[2].ops).is_empty());
}

#[test]
fn zero_records_zero_pages() {
    let template = a4(vec![vec![field("name", "text", 0, 0, 10_000, 10_000, None)]]);
    let layout = layout_of(&template, &vec![]);
    assert!(layout.pages.is_empty());
}

#[test]
fn negative_width_is_invalid() {
    let mut template = a4(vec![vec![field("name", "text", 0, 0, 10_000, 10_000, None)]]);
    template.base_pdf.width = -210_000;
    assert_eq!(generate_layout(&template, &vec![record(&[("name", "x")])]), Err(GenerateError::InvalidTemplate));
}

#[test]
fn zero_height_and_out_of_range_are_invalid() {
    let mut template = a4(vec![]);
    template.base_pdf.height = 0;
    assert_eq!(generate_layout(&template, &vec![]), Err(GenerateError::InvalidTemplate));
    let template = a4(vec![vec![field("f", "text", MAX_LENGTH + 1, 0, 0, 0, None)]]);
    assert_eq!(generate_layout(&template, &vec![]), Err(GenerateError::InvalidTemplate));
    let template = a4(vec![vec![field("f", "text", MAX_LENGTH, -MAX_LENGTH, 0, 0, None)]]);
    assert!(generate_layout(&template, &vec![]).is_ok());
}

#[test]
fn coordinate_transform_flips_and_anchors_bottom() {
    let s = field("f", "text", 20_000, 20_000, 100_000, 10_000, None);
    assert_eq!(transform(297_000, &s), (566_929, 7_568_503));
    let s = field("f", "text", 0, 0, 0, 30_000, None);
    assert_eq!(transform(297_000, &s), (0, points(267_000)));
    let s = field("f", "text", -20_000, 300_000, 0, 10_000, None);
    assert_eq!(transform(297_000, &s), (-566_929, -(13_000 * 3600 / 127)));
}

#[test]
fn unit_conversion_values() {
    assert_eq!(points(0), 0);
    assert_eq!(points(1_000), 28_346);
    assert_eq!(points(25_400), 720_000);
    assert_eq!(points(-25_400), -720_000);
    assert_eq!(points(210_000), 5_952_755);
}

#[test]
fn record_value_overrides_content() {
    let s = field("n", "text", 0, 0, 0, 0, Some("literal"));
    assert_eq!(resolve_value(&s, &record(&[("n", "record")])), "record");
    assert_eq!(resolve_value(&s, &record(&[("other", "x")])), "literal");
    let s = field("n", "text", 0, 0, 0, 0, None);
    assert_eq!(resolve_value(&s, &record(&[])), "");
    assert_eq!(resolve_value(&s, &record(&[("n", "first"), ("n", "second")])), "first");
}

#[test]
fn render_op_counts_follow_resolution() {
    let base = BasePdf { width: 210_000, height: 297_000 };
    let with_content = field("n", "text", 0, 0, 0, 0, Some("c"));
    let bare = field("n", "text", 0, 0, 0, 0, None);
    let mut ops = Vec::new();
    render_schema(&with_content, &record(&[("n", "r")]), &base, &mut ops);
    assert_eq!(ops.len(), 3);
    assert_eq!(ops[1], Op::ShowText("r".to_string()));
    let mut ops = Vec::new();
    render_schema(&with_content, &record(&[]), &base, &mut ops);
    assert_eq!(ops[1], Op::ShowText("c".to_string()));
    let mut ops = Vec::new();
    render_schema(&bare, &record(&[]), &base, &mut ops);
    assert!(ops.is_empty());
    let mut ops = Vec::new();
    render_schema(&with_content, &record(&[("n", "")]), &base, &mut ops);
    assert!(ops.is_empty());
}

#[test]
fn unsupported_kinds_do_not_abort() {
    let template = a4(vec![vec![
        field("name", "text", 20_000, 20_000, 100_000, 10_000, None),
        field("code", "qrcode", 50_000, 50_000, 30_000, 30_000, None),
        field("pic", "image", 50_000, 50_000, 30_000, 30_000, Some("data")),
        field("odd", "barcode", 50_000, 50_000, 30_000, 30_000, Some("x")),
    ]]);
    let inputs = vec![record(&[("name", "John Doe"), ("code", "https://example.com")])];
    let layout = layout_of(&template, &inputs);
    assert_eq!(layout.pages.len(), 1);
    assert_eq!(layout.pages[0].ops.len(), 6);
    assert_eq!(text_ops(&layout.pages[0].ops), vec!["John Doe".to_string()]);
}

#[test]
fn kinds_are_read_from_tags() {
    assert_eq!(field("a", "text", 0, 0, 0, 0, None).kind(), FieldKind::Text);
    assert_eq!(field("a", "image", 0, 0, 0, 0, None).kind(), FieldKind::Image);
    assert_eq!(field("a", "qrcode", 0, 0, 0, 0, None).kind(), FieldKind::QrCode);
    assert_eq!(field("a", "Text", 0, 0, 0, 0, None).kind(), FieldKind::Unknown);
}

#[test]
fn layout_is_deterministic() {
    let template = a4(vec![vec![
        field("a", "text", 1_000, 2_000, 3_000, 4_000, None),
        field("b", "text", 5_000, 6_000, 7_000, 8_000, Some("b")),
    ]]);
    let inputs = vec![record(&[("a", "x")]), record(&[("a", "y"), ("b", "z")])];
    assert_eq!(generate_layout(&template, &inputs), generate_layout(&template, &inputs));
}

#[test]
fn paint_order_is_kept() {
    let template = a4(vec![
        vec![field("a", "text", 0, 0, 0, 0, Some("1")), field("b", "text", 0, 0, 0, 0, Some("2"))],
        vec![field("c", "text", 0, 0, 0, 0, Some("3"))],
    ]);
    let layout = layout_of(&template, &vec![record(&[])]);
    assert_eq!(text_ops(&layout.pages[0].ops), vec!["1".to_string(), "2".to_string(), "3".to_string()]);
    assert_eq!(layout.pages[0].ops[1], Op::SetFont { size: FONT_SIZE });
}

#[test]
fn object_graph_links_pages_to_tree() {
    let template = a4(vec![vec![field("name", "text", 20_000, 20_000, 100_000, 10_000, None)]]);
    let inputs = vec![record(&[("name", "A")]), record(&[("name", "B")])];
    let graph = match generate_document(&template, &inputs) {
        Ok(g) => g,
        Err(e) => panic!("unexpected error {:?}", e),
    };
    assert_eq!(graph.objects.len(), 9);
    assert_eq!(graph.root, 8);
    assert_eq!(graph.objects[0], PdfObject::Font);
    assert_eq!(graph.objects[7], PdfObject::Pages { kids: vec![3, 6] });
    assert_eq!(graph.objects[8], PdfObject::Catalog { pages: 7 });
    assert_eq!(graph.objects[2], PdfObject::Resources { font: 0 });
    assert_eq!(
        graph.objects[6],
        PdfObject::Page { parent: 7, width: 5_952_755, height: 8_418_897, contents: 4, resources: 5 }
    );
    match &graph.objects[4] {
        PdfObject::Content { ops } => assert_eq!(ops[3], Op::ShowText("B".to_string())),
        other => panic!("expected a content stream, got {:?}", other),
    }
}

#[test]
fn object_graph_without_records() {
    let template = a4(vec![vec![field("name", "text", 0, 0, 0, 0, None)]]);
    let graph = match generate_document(&template, &vec![]) {
        Ok(g) => g,
        Err(e) => panic!("unexpected error {:?}", e),
    };
    assert_eq!(
        graph.objects,
        vec![PdfObject::Font, PdfObject::Pages { kids: vec![] }, PdfObject::Catalog { pages: 1 }]
    );
    assert_eq!(graph.root, 2);
}

#[test]
fn object_graph_rejects_invalid_template() {
    let mut template = a4(vec![]);
    template.base_pdf.width = -1;
    assert_eq!(generate_document(&template, &vec![]), Err(GenerateError::InvalidTemplate));
}

#[test]
fn assemble_copies_layout() {
    let template = a4(vec![vec![field("name", "text", 0, 0, 0, 0, Some("x"))]]);
    let layout = layout_of(&template, &vec![record(&[])]);
    let graph = assemble(&layout);
    assert_eq!(graph.objects[1], PdfObject::Content { ops: layout.pages[0].ops.iter().map(|o| match o {
        Op::ShowText(s) => Op::ShowText(s.clone()),
        Op::BeginText => Op::BeginText,
        Op::EndText => Op::EndText,
        Op::SetFont { size } => Op::SetFont { size: *size },
        Op::MoveText { x, y } => Op::MoveText { x: *x, y: *y },
    }).collect() });
}

#[test]
fn unsupported_fields_are_reported_in_order() {
    let template = a4(vec![
        vec![field("a", "text", 0, 0, 0, 0, None), field("b", "qrcode", 0, 0, 0, 0, None)],
        vec![field("c", "image", 0, 0, 0, 0, None), field("d", "barcode", 0, 0, 0, 0, None)],
    ]);
    assert_eq!(
        template.unsupported_fields(),
        vec!["qrcode".to_string(), "image".to_string(), "barcode".to_string()]
    );
    assert!(a4(vec![vec![field("a", "text", 0, 0, 0, 0, None)]]).unsupported_fields().is_empty());
}
