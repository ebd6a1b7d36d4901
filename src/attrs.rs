//! The per-field attribute set: reading `#[capnp_conv(...)]` entries and the
//! rules that hold between them.
use vstd::prelude::*;

use crate::error::ConvError;
use crate::models::TypeSpecifier;
use crate::names::is_str;
use crate::syntax::{ExprPath, MetaItem};

verus! {

/// What the attributes of one field or variant say.
#[derive(Debug, PartialEq, Eq)]
pub struct FieldAttributesInfo {
    pub name_override: Option<String>,
    pub type_specifier: TypeSpecifier,
    pub default: Option<ExprPath>,
    pub skip: bool,
    pub skip_read: bool,
    pub skip_write: bool,
    pub union_field: bool,
}

/// The attribute set of a field with no attributes.
pub open spec fn no_attributes() -> FieldAttributesInfo {
    FieldAttributesInfo {
        name_override: None,
        type_specifier: TypeSpecifier::Default,
        default: None,
        skip: false,
        skip_read: false,
        skip_write: false,
        union_field: false,
    }
}

/// The kind named by the value of a `type` entry.
pub open spec fn type_specifier_of(text: Seq<char>) -> Option<TypeSpecifier> {
    if text == "enum"@ {
        Some(TypeSpecifier::Enum)
    } else if text == "enum_remote"@ {
        Some(TypeSpecifier::EnumRemote)
    } else if text == "group"@ || text == "union"@ {
        Some(TypeSpecifier::GroupOrUnion)
    } else if text == "unnamed_union"@ {
        Some(TypeSpecifier::UnnamedUnion)
    } else if text == "data"@ {
        Some(TypeSpecifier::Data)
    } else {
        None
    }
}

/// A flag entry (`skip`, ...) takes no value; `seen` says whether the same
/// entry came before.
pub open spec fn flag_step(
    m: MetaItem,
    seen: bool,
    set: FieldAttributesInfo,
) -> Result<FieldAttributesInfo, ConvError> {
    if m.value is Some {
        Err(ConvError::MalformedAttributeValue)
    } else if seen {
        Err(ConvError::DuplicateAttribute)
    } else {
        Ok(set)
    }
}

/// The attribute set after one more entry. An entry is refused when its key
/// is unknown, its value is missing or of the wrong form, or an entry of the
/// same key came before.
pub open spec fn meta_step(st: FieldAttributesInfo, m: MetaItem) -> Result<
    FieldAttributesInfo,
    ConvError,
> {
    let k = m.key@;
    if k == "name"@ {
        match m.value {
            Some(v) => match v.ident {
                Some(id) => if st.name_override is Some {
                    Err(ConvError::DuplicateAttribute)
                } else {
                    Ok(FieldAttributesInfo { name_override: Some(id), ..st })
                },
                None => Err(ConvError::MalformedAttributeValue),
            },
            None => Err(ConvError::MalformedAttributeValue),
        }
    } else if k == "type"@ {
        match m.value {
            Some(v) => match type_specifier_of(v.text@) {
                Some(ts) => if st.type_specifier != TypeSpecifier::Default {
                    Err(ConvError::DuplicateAttribute)
                } else {
                    Ok(FieldAttributesInfo { type_specifier: ts, ..st })
                },
                None => Err(ConvError::UnknownTypeKind),
            },
            None => Err(ConvError::MalformedAttributeValue),
        }
    } else if k == "default"@ {
        match m.value {
            Some(v) => match v.path {
                Some(p) => if !p.turbofish {
                    Err(ConvError::NotTurbofish)
                } else if st.default is Some {
                    Err(ConvError::DuplicateAttribute)
                } else {
                    Ok(FieldAttributesInfo { default: Some(p), ..st })
                },
                None => Err(ConvError::MalformedAttributeValue),
            },
            None => Err(ConvError::MalformedAttributeValue),
        }
    } else if k == "skip"@ {
        flag_step(m, st.skip, FieldAttributesInfo { skip: true, ..st })
    } else if k == "skip_read"@ {
        flag_step(m, st.skip_read, FieldAttributesInfo { skip_read: true, ..st })
    } else if k == "skip_write"@ {
        flag_step(m, st.skip_write, FieldAttributesInfo { skip_write: true, ..st })
    } else if k == "union_variant"@ {
        flag_step(m, st.union_field, FieldAttributesInfo { union_field: true, ..st })
    } else {
        Err(ConvError::UnknownAttribute)
    }
}

/// The attribute set read from `items` in order, or the error of the first
/// entry that is refused.
pub open spec fn scan_attributes(items: Seq<MetaItem>) -> Result<FieldAttributesInfo, ConvError>
    decreases items.len(),
{
    if items.len() == 0 {
        Ok(no_attributes())
    } else {
        match scan_attributes(items.drop_last()) {
            Ok(st) => meta_step(st, items.last()),
            Err(e) => Err(e),
        }
    }
}

/// The rules between entries: `default` needs `skip` or `skip_read`, and
/// `skip` excludes `skip_read` and `skip_write`.
pub open spec fn check_attributes(r: Result<FieldAttributesInfo, ConvError>) -> Result<
    FieldAttributesInfo,
    ConvError,
> {
    match r {
        Ok(st) => if st.default is Some && !(st.skip || st.skip_read) {
            Err(ConvError::DefaultWithoutSkip)
        } else if st.skip && (st.skip_read || st.skip_write) {
            Err(ConvError::SkipWithSkipReadOrWrite)
        } else {
            Ok(st)
        },
        Err(e) => Err(e),
    }
}

fn flag_entry(m: &MetaItem, seen: bool, set: FieldAttributesInfo) -> (r: Result<
    FieldAttributesInfo,
    ConvError,
>)
    ensures
        r == flag_step(*m, seen, set),
{
    if m.value.is_some() {
        Err(ConvError::MalformedAttributeValue)
    } else if seen {
        Err(ConvError::DuplicateAttribute)
    } else {
        Ok(set)
    }
}

fn apply_meta(st: FieldAttributesInfo, m: &MetaItem) -> (r: Result<FieldAttributesInfo, ConvError>)
    ensures
        r == meta_step(st, *m),
{
    if is_str(&m.key, "name") {
        match &m.value {
            Some(v) => match &v.ident {
                Some(id) => if st.name_override.is_some() {
                    Err(ConvError::DuplicateAttribute)
                } else {
                    Ok(FieldAttributesInfo { name_override: Some(id.clone()), ..st })
                },
                None => Err(ConvError::MalformedAttributeValue),
            },
            None => Err(ConvError::MalformedAttributeValue),
        }
    } else if is_str(&m.key, "type") {
        match &m.value {
            Some(v) => {
                let ts = if is_str(&v.text, "enum") {
                    Some(TypeSpecifier::Enum)
                } else if is_str(&v.text, "enum_remote") {
                    Some(TypeSpecifier::EnumRemote)
                } else if is_str(&v.text, "group") || is_str(&v.text, "union") {
                    Some(TypeSpecifier::GroupOrUnion)
                } else if is_str(&v.text, "unnamed_union") {
                    Some(TypeSpecifier::UnnamedUnion)
                } else if is_str(&v.text, "data") {
                    Some(TypeSpecifier::Data)
                } else {
                    None
                };
                match ts {
                    Some(ts) => if !matches!(st.type_specifier, TypeSpecifier::Default) {
                        Err(ConvError::DuplicateAttribute)
                    } else {
                        Ok(FieldAttributesInfo { type_specifier: ts, ..st })
                    },
                    None => Err(ConvError::UnknownTypeKind),
                }
            },
            None => Err(ConvError::MalformedAttributeValue),
        }
    } else if is_str(&m.key, "default") {
        match &m.value {
            Some(v) => match v.path {
                Some(p) => if !p.turbofish {
                    Err(ConvError::NotTurbofish)
                } else if st.default.is_some() {
                    Err(ConvError::DuplicateAttribute)
                } else {
                    Ok(FieldAttributesInfo { default: Some(p), ..st })
                },
                None => Err(ConvError::MalformedAttributeValue),
            },
            None => Err(ConvError::MalformedAttributeValue),
        }
    } else if is_str(&m.key, "skip") {
        let seen = st.skip;
        flag_entry(m, seen, FieldAttributesInfo { skip: true, ..st })
    } else if is_str(&m.key, "skip_read") {
        let seen = st.skip_read;
        flag_entry(m, seen, FieldAttributesInfo { skip_read: true, ..st })
    } else if is_str(&m.key, "skip_write") {
        let seen = st.skip_write;
        flag_entry(m, seen, FieldAttributesInfo { skip_write: true, ..st })
    } else if is_str(&m.key, "union_variant") {
        let seen = st.union_field;
        flag_entry(m, seen, FieldAttributesInfo { union_field: true, ..st })
    } else {
        Err(ConvError::UnknownAttribute)
    }
}

impl FieldAttributesInfo {
    /// Reads the entries of a field's or variant's `#[capnp_conv(...)]`
    /// attributes in order, stopping at the first refused entry, then checks
    /// the rules between them.
    pub fn new(attributes: &Vec<MetaItem>) -> (r: Result<Self, ConvError>)
        ensures
            r == check_attributes(scan_attributes(attributes@)),
    {
        let mut st = FieldAttributesInfo {
            name_override: None,
            type_specifier: TypeSpecifier::Default,
            default: None,
            skip: false,
            skip_read: false,
            skip_write: false,
            union_field: false,
        };
        let mut i: usize = 0;
        while i < attributes.len()
            invariant
                0 <= i <= attributes@.len(),
                scan_attributes(attributes@.take(i as int)) == Ok::<FieldAttributesInfo, ConvError>(st),
            decreases attributes@.len() - i,
        {
            proof {
                assert(attributes@.take(i + 1).drop_last() == attributes@.take(i as int));
            }
            match apply_meta(st, &attributes[i]) {
                Ok(next) => st = next,
                Err(e) => {
                    proof {
                        lemma_scan_error_stays(attributes@, i as int + 1);
                    }
                    return Err(e);
                },
            }
            i = i + 1;
        }
        proof {
            assert(attributes@.take(i as int) == attributes@);
        }
        if st.default.is_some() && !(st.skip || st.skip_read) {
            Err(ConvError::DefaultWithoutSkip)
        } else if st.skip && (st.skip_read || st.skip_write) {
            Err(ConvError::SkipWithSkipReadOrWrite)
        } else {
            Ok(st)
        }
    }
}

/// Once an entry is refused, the entries after it change nothing.
proof fn lemma_scan_error_stays(items: Seq<MetaItem>, n: int)
    requires
        0 <= n <= items.len(),
        scan_attributes(items.take(n)) is Err,
    ensures
        scan_attributes(items) == scan_attributes(items.take(n)),
    decreases items.len() - n,
{
    if n < items.len() {
        assert(items.take(n + 1).drop_last() == items.take(n));
        lemma_scan_error_stays(items, n + 1);
    } else {
        assert(items.take(n) == items);
    }
}

} // verus!
