//! Rich-message payloads: a schema in which every key is optional, and the
//! total function that gives each absent key its default.
use vstd::prelude::*;

verus! {

/// One field entry of a payload as it was read; any key may be missing.
pub struct RichFieldInput {
    pub name: Option<String>,
    pub value: Option<String>,
    pub inline: Option<bool>,
}

/// A rich-message payload as it was read; any key may be missing.
pub struct RichPayload {
    pub title: Option<String>,
    pub description: Option<String>,
    pub image: Option<String>,
    pub thumbnail: Option<String>,
    pub footer: Option<String>,
    pub author: Option<String>,
    pub color: Option<u64>,
    pub fields: Option<Vec<RichFieldInput>>,
}

/// One field of the display object.
pub struct EmbedField {
    pub name: String,
    pub value: String,
    pub inline: bool,
}

/// The display object built from a payload, every value resolved.
pub struct Embed {
    pub title: String,
    pub description: String,
    pub image: String,
    pub thumbnail: String,
    pub footer: String,
    pub author: String,
    pub color: u64,
    pub fields: Vec<EmbedField>,
}

/// A text key's value, or the empty text when the key is missing.
pub open spec fn text_or_empty(o: Option<String>) -> Seq<char> {
    match o {
        Some(s) => s@,
        None => Seq::empty(),
    }
}

/// Whether `f` is the field entry `input` resolves to.
pub open spec fn field_resolves(input: RichFieldInput, f: EmbedField) -> bool {
    &&& f.name@ == text_or_empty(input.name)
    &&& f.value@ == text_or_empty(input.value)
    &&& f.inline == match input.inline {
        Some(b) => b,
        None => false,
    }
}

/// The field entries of a payload: none when the key is missing.
pub open spec fn field_inputs(p: RichPayload) -> Seq<RichFieldInput> {
    match p.fields {
        Some(v) => v@,
        None => Seq::empty(),
    }
}

/// Whether `e` is the display object `p` resolves to: every missing text is
/// empty, a missing color is zero, a missing field list is empty, and each
/// field entry resolves in its place.
pub open spec fn payload_resolves(p: RichPayload, e: Embed) -> bool {
    &&& e.title@ == text_or_empty(p.title)
    &&& e.description@ == text_or_empty(p.description)
    &&& e.image@ == text_or_empty(p.image)
    &&& e.thumbnail@ == text_or_empty(p.thumbnail)
    &&& e.footer@ == text_or_empty(p.footer)
    &&& e.author@ == text_or_empty(p.author)
    &&& e.color == match p.color {
        Some(c) => c,
        None => 0,
    }
    &&& e.fields@.len() == field_inputs(p).len()
    &&& forall|i: int| 0 <= i < e.fields@.len() ==> field_resolves(field_inputs(p)[i], #[trigger] e.fields@[i])
}

fn text_or_default(o: &Option<String>) -> (r: String)
    ensures
        r@ == text_or_empty(*o),
{
    match o {
        Some(s) => s.clone(),
        None => String::new(),
    }
}

/// Resolves one field entry: a missing name or value is empty and a missing
/// `inline` is false.
pub fn resolve_field(input: &RichFieldInput) -> (r: EmbedField)
    ensures
        field_resolves(*input, r),
{
    let inline = match input.inline {
        Some(b) => b,
        None => false,
    };
    EmbedField { name: text_or_default(&input.name), value: text_or_default(&input.value), inline }
}

impl RichPayload {
    /// The payload with every key missing, used when the text could not be
    /// read at all.
    pub fn empty() -> (r: RichPayload)
        ensures
            r.title is None && r.description is None && r.image is None,
            r.thumbnail is None && r.footer is None && r.author is None,
            r.color is None && r.fields is None,
    {
        RichPayload {
            title: None,
            description: None,
            image: None,
            thumbnail: None,
            footer: None,
            author: None,
            color: None,
            fields: None,
        }
    }
}

/// Builds the display object of a payload, giving each missing key its
/// default instead of rejecting the payload.
pub fn resolve_payload(p: &RichPayload) -> (r: Embed)
    ensures
        payload_resolves(*p, r),
{
    let mut fields: Vec<EmbedField> = Vec::new();
    match &p.fields {
        Some(inputs) => {
            let n = inputs.len();
            let mut i: usize = 0;
            while i < n
                invariant
                    n == inputs@.len(),
                    field_inputs(*p) == inputs@,
                    i <= n,
                    fields@.len() == i,
                    forall|j: int| 0 <= j < i ==> field_resolves(inputs@[j], #[trigger] fields@[j]),
                decreases n - i,
            {
                let f = resolve_field(&inputs[i]);
                fields.push(f);
                i = i + 1;
            }
        },
        None => {},
    }
    let color = match p.color {
        Some(c) => c,
        None => 0,
    };
    Embed {
        title: text_or_default(&p.title),
        description: text_or_default(&p.description),
        image: text_or_default(&p.image),
        thumbnail: text_or_default(&p.thumbnail),
        footer: text_or_default(&p.footer),
        author: text_or_default(&p.author),
        color,
        fields,
    }
}

/// A payload that gives only a title resolves to that title, empty texts,
/// color zero and no fields.
pub proof fn lemma_title_only_defaults(p: RichPayload, e: Embed)
    requires
        p.title is Some,
        p.description is None && p.image is None && p.thumbnail is None,
        p.footer is None && p.author is None && p.color is None && p.fields is None,
        payload_resolves(p, e),
    ensures
        e.title@ == p.title.unwrap()@,
        e.description@ == Seq::<char>::empty(),
        e.color == 0,
        e.fields@.len() == 0,
{
}

/// A field entry without `inline` resolves to a field that is not inline.
pub proof fn lemma_missing_inline_is_false(input: RichFieldInput, f: EmbedField)
    requires
        input.inline is None,
        field_resolves(input, f),
    ensures
        !f.inline,
{
}

} // verus!
