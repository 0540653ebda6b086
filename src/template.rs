//! The template model: page geometry, field placements and input records.
//!
//! Every length is an integer number of micrometres (a thousandth of a
//! millimetre). Design-space positions have their origin at the page's
//! top-left corner.
use vstd::prelude::*;

verus! {

/// The largest magnitude, in micrometres, accepted for any length of a
/// template (one kilometre). It keeps every coordinate computation within
/// the range of a 64-bit integer.
pub const MAX_LENGTH: i64 = 1_000_000_000;

/// Page dimensions, in micrometres.
#[derive(Debug, PartialEq, Eq)]
pub struct BasePdf {
    pub width: i64,
    pub height: i64,
}

/// A design-space position, in micrometres, measured from the top-left
/// corner of the page.
#[derive(Debug, PartialEq, Eq)]
pub struct Position {
    pub x: i64,
    pub y: i64,
}

/// What a field draws.
#[derive(Debug, Clone, Copy, PartialEq, Eq, Structural)]
pub enum FieldKind {
    Text,
    Image,
    QrCode,
    Unknown,
}

/// One placeable field of a template.
#[derive(Debug, PartialEq, Eq)]
pub struct Schema {
    /// Key under which an input record supplies this field's value.
    pub name: String,
    /// The kind tag as written in the template (`text`, `image`, `qrcode`, ...).
    pub schema_type: String,
    pub position: Position,
    pub width: i64,
    pub height: i64,
    /// Literal value used when the record has no value for `name`.
    pub content: Option<String>,
}

/// Page geometry and the ordered pages of fields, each in paint order.
#[derive(Debug, PartialEq, Eq)]
pub struct Template {
    pub base_pdf: BasePdf,
    pub schemas: Vec<Vec<Schema>>,
}

/// One input record: pairs of field name and value. Where a name occurs
/// more than once, its first pair counts.
#[derive(Debug, PartialEq, Eq)]
pub struct Input {
    pub fields: Vec<(String, String)>,
}

pub open spec fn length_in_range(v: int) -> bool {
    -MAX_LENGTH <= v <= MAX_LENGTH
}

impl BasePdf {
    /// Both dimensions are strictly positive and in range.
    pub open spec fn valid(&self) -> bool {
        0 < self.width <= MAX_LENGTH && 0 < self.height <= MAX_LENGTH
    }
}

impl Schema {
    /// Every length of the field is in range.
    pub open spec fn valid(&self) -> bool {
        &&& length_in_range(self.position.x as int)
        &&& length_in_range(self.position.y as int)
        &&& length_in_range(self.width as int)
        &&& length_in_range(self.height as int)
    }

    /// The kind that a tag names: `text`, `image` and `qrcode` are
    /// recognized; any other tag is an unknown kind.
    pub open spec fn kind_of(tag: Seq<char>) -> FieldKind {
        if tag == seq!['t', 'e', 'x', 't'] {
            FieldKind::Text
        } else if tag == seq!['i', 'm', 'a', 'g', 'e'] {
            FieldKind::Image
        } else if tag == seq!['q', 'r', 'c', 'o', 'd', 'e'] {
            FieldKind::QrCode
        } else {
            FieldKind::Unknown
        }
    }

    pub open spec fn spec_kind(&self) -> FieldKind {
        Self::kind_of(self.schema_type@)
    }

    /// The kind of this field, read from its tag.
    pub fn kind(&self) -> (r: FieldKind)
        ensures
            r == self.spec_kind(),
    {
        let text = String::from_str("text");
        let image = String::from_str("image");
        let qrcode = String::from_str("qrcode");
        proof {
            reveal_strlit("text");
            reveal_strlit("image");
            reveal_strlit("qrcode");
            assert(text@ =~= seq!['t', 'e', 'x', 't']);
            assert(image@ =~= seq!['i', 'm', 'a', 'g', 'e']);
            assert(qrcode@ =~= seq!['q', 'r', 'c', 'o', 'd', 'e']);
        }
        if self.schema_type == text {
            FieldKind::Text
        } else if self.schema_type == image {
            FieldKind::Image
        } else if self.schema_type == qrcode {
            FieldKind::QrCode
        } else {
            FieldKind::Unknown
        }
    }

    /// Whether every length of the field is in range.
    pub fn is_valid(&self) -> (r: bool)
        ensures
            r == self.valid(),
    {
        -MAX_LENGTH <= self.position.x && self.position.x <= MAX_LENGTH
            && -MAX_LENGTH <= self.position.y && self.position.y <= MAX_LENGTH
            && -MAX_LENGTH <= self.width && self.width <= MAX_LENGTH
            && -MAX_LENGTH <= self.height && self.height <= MAX_LENGTH
    }
}

impl Template {
    /// The page geometry is valid and so is every field.
    pub open spec fn valid(&self) -> bool {
        &&& self.base_pdf.valid()
        &&& forall|p: int, f: int|
            0 <= p < self.schemas@.len() && 0 <= f < self.schemas@[p]@.len()
                ==> (#[trigger] self.schemas@[p]@[f]).valid()
    }
}

/// The value that `fields` holds under `key`: that of its first pair
/// with that key, if any.
pub open spec fn lookup(fields: Seq<(String, String)>, key: Seq<char>) -> Option<Seq<char>>
    decreases fields.len(),
{
    if fields.len() == 0 {
        None
    } else if fields[0].0@ == key {
        Some(fields[0].1@)
    } else {
        lookup(fields.drop_first(), key)
    }
}

impl Input {
    pub open spec fn spec_get(&self, key: Seq<char>) -> Option<Seq<char>> {
        lookup(self.fields@, key)
    }

    /// The value of the first pair whose name is `key`, if any.
    pub fn get(&self, key: &String) -> (r: Option<&String>)
        ensures
            r matches Some(v) ==> self.spec_get(key@) == Some(v@),
            r is None ==> self.spec_get(key@) is None,
    {
        let mut i: usize = 0;
        assert(self.fields@.subrange(0, self.fields@.len() as int) =~= self.fields@);
        while i < self.fields.len()
            invariant
                0 <= i <= self.fields@.len(),
                lookup(self.fields@, key@) == lookup(self.fields@.subrange(i as int, self.fields@.len() as int), key@),
            decreases self.fields@.len() - i,
        {
            assert(self.fields@.subrange(i as int, self.fields@.len() as int).drop_first()
                =~= self.fields@.subrange(i + 1, self.fields@.len() as int));
            if self.fields[i].0 == *key {
                return Some(&self.fields[i].1);
            }
            i = i + 1;
        }
        None
    }
}

impl Template {
    /// Whether the page geometry and every field are valid.
    pub fn is_valid(&self) -> (r: bool)
        ensures
            r == self.valid(),
    {
        if !(0 < self.base_pdf.width && self.base_pdf.width <= MAX_LENGTH && 0 < self.base_pdf.height
            && self.base_pdf.height <= MAX_LENGTH) {
            return false;
        }
        let mut p: usize = 0;
        while p < self.schemas.len()
            invariant
                0 <= p <= self.schemas@.len(),
                self.base_pdf.valid(),
                forall|q: int, f: int|
                    0 <= q < p && 0 <= f < self.schemas@[q]@.len() ==> (#[trigger] self.schemas@[q]@[f]).valid(),
            decreases self.schemas@.len() - p,
        {
            let page = &self.schemas[p];
            let mut f: usize = 0;
            while f < page.len()
                invariant
                    0 <= p < self.schemas@.len(),
                    page == self.schemas@[p as int],
                    0 <= f <= page@.len(),
                    forall|q: int, g: int|
                        0 <= q < p && 0 <= g < self.schemas@[q]@.len() ==> (#[trigger] self.schemas@[q]@[g]).valid(),
                    forall|g: int| 0 <= g < f ==> (#[trigger] page@[g]).valid(),
                decreases page@.len() - f,
            {
                if !page[f].is_valid() {
                    assert(!self.schemas@[p as int]@[f as int].valid());
                    return false;
                }
                f = f + 1;
            }
            assert forall|q: int, g: int|
                0 <= q < p + 1 && 0 <= g < self.schemas@[q]@.len() implies (#[trigger] self.schemas@[q]@[g]).valid() by {
                if q == p {
                    assert(page@[g].valid());
                }
            }
            p = p + 1;
        }
        true
    }
}

/// The kind tags of the fields in `fields` that are not text fields, in
/// order.
pub open spec fn unsupported_in(fields: Seq<Schema>) -> Seq<Seq<char>>
    decreases fields.len(),
{
    if fields.len() == 0 {
        Seq::empty()
    } else if fields.last().spec_kind() is Text {
        unsupported_in(fields.drop_last())
    } else {
        unsupported_in(fields.drop_last()).push(fields.last().schema_type@)
    }
}

/// The kind tags of the fields of `groups` that are not text fields, page
/// after page.
pub open spec fn unsupported_tags(groups: Seq<Vec<Schema>>) -> Seq<Seq<char>>
    decreases groups.len(),
{
    if groups.len() == 0 {
        Seq::empty()
    } else {
        unsupported_tags(groups.drop_last()) + unsupported_in(groups.last()@)
    }
}

impl Template {
    /// The kind tags of the fields that are drawn as nothing, in paint
    /// order: the diagnostics that a generation run reports while it goes on.
    pub fn unsupported_fields(&self) -> (r: Vec<String>)
        ensures
            r@.map_values(|t: String| t@) == unsupported_tags(self.schemas@),
    {
        let mut r: Vec<String> = Vec::new();
        let mut p: usize = 0;
        while p < self.schemas.len()
            invariant
                0 <= p <= self.schemas@.len(),
                r@.map_values(|t: String| t@) == unsupported_tags(self.schemas@.take(p as int)),
            decreases self.schemas@.len() - p,
        {
            let group = &self.schemas[p];
            let ghost before = r@.map_values(|t: String| t@);
            let mut f: usize = 0;
            while f < group.len()
                invariant
                    0 <= p < self.schemas@.len(),
                    *group == self.schemas@[p as int],
                    0 <= f <= group@.len(),
                    r@.map_values(|t: String| t@) == before + unsupported_in(group@.take(f as int)),
                decreases group@.len() - f,
            {
                assert(group@.take(f + 1).drop_last() =~= group@.take(f as int));
                assert(group@.take(f + 1).last() == group@[f as int]);
                let ghost mid = r@;
                let kind = group[f].kind();
                match kind {
                    FieldKind::Text => {},
                    _ => {
                        let tag = group[f].schema_type.clone();
                        r.push(tag);
                        assert(r@ == mid.push(tag));
                        assert(r@.map_values(|t: String| t@) =~= mid.map_values(|t: String| t@).push(
                            group@[f as int].schema_type@,
                        ));
                    },
                }
                assert(r@.map_values(|t: String| t@) =~= before + unsupported_in(group@.take(f + 1)));
                f = f + 1;
            }
            assert(group@.take(f as int) =~= group@);
            assert(self.schemas@.take(p + 1).drop_last() =~= self.schemas@.take(p as int));
            assert(self.schemas@.take(p + 1).last() == self.schemas@[p as int]);
            p = p + 1;
        }
        assert(self.schemas@.take(p as int) =~= self.schemas@);
        r
    }
}

} // verus!
