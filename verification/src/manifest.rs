//! Loading the animation descriptor. The document text is parsed by the
//! toml crate into a generic value; everything after that -- the schema of a
//! clip entry, required and optional fields with their defaults, rejection
//! of unknown fields -- is verified logic over plainly classified values.

use vstd::prelude::*;
use crate::animation::{part_views, Animation, ClipMode, Part, PartView};
use crate::error::ConfigError;

verus! {

#[verifier::external_type_specification]
#[verifier::external_body]
pub struct ExTomlValue(toml::Value);

#[verifier::external_type_specification]
#[verifier::external_body]
pub struct ExTomlDeError(toml::de::Error);

#[verifier::external_type_specification]
#[verifier::external_body]
#[verifier::reject_recursive_types(K)]
#[verifier::reject_recursive_types(V)]
pub struct ExTomlMap<K, V>(toml::map::Map<K, V>);

/// Whether the toml crate accepts a text as a well-formed TOML document;
/// what toml::from_str returns depends on the text alone.
pub uninterp spec fn toml_accepts(text: Seq<char>) -> bool;

/// The document value toml::from_str parses an accepted text to.
pub uninterp spec fn spec_document_of(text: Seq<char>) -> toml::Value;

/// The variant and payload of a parsed TOML value.
pub uninterp spec fn spec_node_of(value: toml::Value) -> TomlNode;

/// The entries a parsed TOML table holds, in the order its iterator hands
/// them out.
pub uninterp spec fn spec_entries_of(table: toml::map::Map<String, toml::Value>) -> Seq<
    (String, toml::Value),
>;

/// Relies on toml::from_str: parses TOML text into a generic value, erring
/// on any malformed document (bad syntax, duplicate keys). The result is a
/// function of the text alone, named by `toml_accepts`/`spec_document_of`.
#[verifier::external_body]
fn toml_parse(text: &str) -> (r: Result<toml::Value, toml::de::Error>)
    ensures
        r is Ok <==> toml_accepts(text@),
        (r matches Ok(v) ==> v == spec_document_of(text@)),
{
    toml::from_str(text)
}

/// One parsed TOML value with its variant told apart; the payloads the
/// schema never accepts are not carried along.
pub enum TomlNode {
    /// A TOML string.
    Text(String),
    /// A TOML integer.
    Int(i64),
    /// A TOML array.
    List(Vec<toml::Value>),
    /// A TOML table.
    Table(toml::map::Map<String, toml::Value>),
    /// A TOML boolean, float or datetime: no clip field has such a shape.
    Other,
}

/// Relies on toml::Value's variants: tells them apart, moving each payload
/// the schema can use; which variant a value holds is a function of the
/// value alone, named by `spec_node_of`.
#[verifier::external_body]
fn classify(value: toml::Value) -> (n: TomlNode)
    ensures
        n == spec_node_of(value),
{
    match value {
        toml::Value::String(s) => TomlNode::Text(s),
        toml::Value::Integer(i) => TomlNode::Int(i),
        toml::Value::Boolean(_) => TomlNode::Other,
        toml::Value::Float(_) => TomlNode::Other,
        toml::Value::Datetime(_) => TomlNode::Other,
        toml::Value::Array(items) => TomlNode::List(items),
        toml::Value::Table(table) => TomlNode::Table(table),
    }
}

/// Relies on toml::map::Map::into_iter: hands out a table's entries, named
/// by `spec_entries_of`; the toml crate keeps the keys of one table
/// distinct and iterates them in their key order.
#[verifier::external_body]
fn table_entries(table: toml::map::Map<String, toml::Value>) -> (r: Vec<(String, toml::Value)>)
    ensures
        r@ == spec_entries_of(table),
{
    table.into_iter().collect()
}

/// What a clip-entry field may hold once classified: only strings and
/// integers ever conform to the schema.
pub enum FieldValue {
    /// A string field.
    Text(String),
    /// An integer field.
    Int(i64),
    /// Any other TOML shape.
    Other,
}

/// The clip mode a descriptor string names.
pub open spec fn spec_mode_of(s: Seq<char>) -> Option<ClipMode> {
    if s == "complete"@ {
        Some(ClipMode::Complete)
    } else if s == "interruptable"@ {
        Some(ClipMode::Interruptable)
    } else if s == "forever"@ {
        Some(ClipMode::Forever)
    } else {
        None
    }
}

/// Parse the string of a `mode` field; anything but the three mode names is
/// a schema violation.
pub fn mode_of(s: &String) -> (m: Option<ClipMode>)
    ensures
        m == spec_mode_of(s@),
{
    if *s == "complete".to_owned() {
        Some(ClipMode::Complete)
    } else if *s == "interruptable".to_owned() {
        Some(ClipMode::Interruptable)
    } else if *s == "forever".to_owned() {
        Some(ClipMode::Forever)
    } else {
        None
    }
}

/// The fields of one clip entry gathered so far.
pub ghost struct PartFields {
    pub file: Option<Seq<char>>,
    pub mode: Option<ClipMode>,
    pub repeat: Option<nat>,
}

/// Fold one field into the partially gathered clip; `None` is a schema
/// violation: an unknown or repeated key, a wrong shape, an unknown mode
/// name, or a repeat count that is negative or beyond the platform's sizes.
pub open spec fn spec_apply_field(acc: PartFields, key: Seq<char>, value: FieldValue) -> Option<
    PartFields,
> {
    if key == "file"@ {
        match value {
            FieldValue::Text(s) => if acc.file is None {
                Some(PartFields { file: Some(s@), ..acc })
            } else {
                None
            },
            _ => None,
        }
    } else if key == "mode"@ {
        match value {
            FieldValue::Text(s) => match spec_mode_of(s@) {
                Some(m) => if acc.mode is None {
                    Some(PartFields { mode: Some(m), ..acc })
                } else {
                    None
                },
                None => None,
            },
            _ => None,
        }
    } else if key == "repeat"@ {
        match value {
            FieldValue::Int(i) => if 0 <= i <= usize::MAX && acc.repeat is None {
                Some(PartFields { repeat: Some(i as nat), ..acc })
            } else {
                None
            },
            _ => None,
        }
    } else {
        None
    }
}

/// The accumulator a clip entry's fold begins with: nothing gathered yet.
pub open spec fn spec_no_fields() -> PartFields {
    PartFields { file: None, mode: None, repeat: None }
}

/// Fold a clip entry's fields left to right.
pub open spec fn spec_gather_fields(fields: Seq<(String, FieldValue)>, acc: PartFields) -> Option<
    PartFields,
>
    decreases fields.len(),
{
    if fields.len() == 0 {
        Some(acc)
    } else {
        match spec_apply_field(acc, fields[0].0@, fields[0].1) {
            Some(next) => spec_gather_fields(fields.drop_first(), next),
            None => None,
        }
    }
}

/// The clip denoted by one entry's fields: `file` is required; a missing
/// `mode` defaults to playing completely; a missing `repeat` defaults to
/// zero additional replays.
pub open spec fn spec_part_from_fields(fields: Seq<(String, FieldValue)>) -> Option<PartView> {
    match spec_gather_fields(fields, spec_no_fields()) {
        Some(acc) => match acc.file {
            Some(f) => Some(
                PartView {
                    file: f,
                    mode: match acc.mode {
                        Some(m) => m,
                        None => ClipMode::Complete,
                    },
                    repeat: match acc.repeat {
                        Some(x) => x,
                        None => 0,
                    },
                },
            ),
            None => None,
        },
        None => None,
    }
}

/// The image of the gathered exec fields.
pub open spec fn spec_acc(
    file: Option<String>,
    mode: Option<ClipMode>,
    repeat: Option<usize>,
) -> PartFields {
    PartFields {
        file: match file {
            Some(f) => Some(f@),
            None => None,
        },
        mode,
        repeat: match repeat {
            Some(x) => Some(x as nat),
            None => None,
        },
    }
}

/// What a classified value gives a clip field.
pub open spec fn spec_field_of(node: TomlNode) -> FieldValue {
    match node {
        TomlNode::Text(s) => FieldValue::Text(s),
        TomlNode::Int(i) => FieldValue::Int(i),
        _ => FieldValue::Other,
    }
}

/// The classified field list of one clip entry's raw table entries.
pub open spec fn spec_fields_of(entries: Seq<(String, toml::Value)>) -> Seq<(String, FieldValue)> {
    entries.map_values(|e: (String, toml::Value)| (e.0, spec_field_of(spec_node_of(e.1))))
}

/// Reduce a classified value to what a clip field may hold.
fn field_value(node: TomlNode) -> (f: FieldValue)
    ensures
        f == spec_field_of(node),
{
    match node {
        TomlNode::Text(s) => FieldValue::Text(s),
        TomlNode::Int(i) => FieldValue::Int(i),
        TomlNode::List(_) => FieldValue::Other,
        TomlNode::Table(_) => FieldValue::Other,
        TomlNode::Other => FieldValue::Other,
    }
}

/// Build one clip from its entry's classified fields, applying the schema
/// exactly as `spec_part_from_fields` states it.
pub fn part_from_fields(fields: &Vec<(String, FieldValue)>) -> (r: Option<Part>)
    ensures
        match (r, spec_part_from_fields(fields@)) {
            (Some(p), Some(v)) => p@ == v,
            (None, None) => true,
            _ => false,
        },
{
    let n = fields.len();
    let mut i: usize = 0;
    let mut file: Option<String> = None;
    let mut mode: Option<ClipMode> = None;
    let mut repeat: Option<usize> = None;
    proof {
        assert(fields@.skip(0) =~= fields@);
    }
    while i < n
        invariant
            n == fields@.len(),
            0 <= i <= n,
            spec_gather_fields(fields@, spec_no_fields()) == spec_gather_fields(
                fields@.skip(i as int),
                spec_acc(file, mode, repeat),
            ),
        decreases n - i,
    {
        let ghost acc = spec_acc(file, mode, repeat);
        let key = &fields[i].0;
        let value = &fields[i].1;
        proof {
            assert(fields@.skip(i as int).drop_first() =~= fields@.skip(i as int + 1));
            assert(fields@.skip(i as int)[0] == fields@[i as int]);
            assert(spec_gather_fields(fields@.skip(i as int), acc) == (match spec_apply_field(
                acc,
                key@,
                *value,
            ) {
                Some(next) => spec_gather_fields(fields@.skip(i as int + 1), next),
                None => None::<PartFields>,
            }));
        }
        if *key == "file".to_owned() {
            match value {
                FieldValue::Text(s) => {
                    if file.is_none() {
                        file = Some(s.clone());
                    } else {
                        return None;
                    }
                },
                _ => {
                    return None;
                },
            }
        } else if *key == "mode".to_owned() {
            match value {
                FieldValue::Text(s) => match mode_of(s) {
                    Some(m) => {
                        if mode.is_none() {
                            mode = Some(m);
                        } else {
                            return None;
                        }
                    },
                    None => {
                        return None;
                    },
                },
                _ => {
                    return None;
                },
            }
        } else if *key == "repeat".to_owned() {
            match value {
                FieldValue::Int(raw) => match usize::try_from(*raw) {
                    Ok(u) => {
                        if repeat.is_none() {
                            repeat = Some(u);
                        } else {
                            return None;
                        }
                    },
                    Err(_) => {
                        return None;
                    },
                },
                _ => {
                    return None;
                },
            }
        } else {
            return None;
        }
        i += 1;
    }
    proof {
        assert(fields@.skip(n as int) =~= Seq::<(String, FieldValue)>::empty());
    }
    let f = match file {
        Some(f) => f,
        None => {
            return None;
        },
    };
    let m = match mode {
        Some(m) => m,
        None => ClipMode::Complete,
    };
    let rep = match repeat {
        Some(x) => x,
        None => 0,
    };
    Some(Part { file: f, mode: m, repeat: rep })
}

/// The clips a list of clip-entry values denotes: every element must be a
/// table whose fields build a clip, in list order.
pub open spec fn spec_clips_of(items: Seq<toml::Value>) -> Option<Seq<PartView>>
    decreases items.len(),
{
    if items.len() == 0 {
        Some(Seq::empty())
    } else {
        let first = match spec_node_of(items[0]) {
            TomlNode::Table(t) => spec_part_from_fields(spec_fields_of(spec_entries_of(t))),
            _ => None,
        };
        match first {
            Some(p) => match spec_clips_of(items.drop_first()) {
                Some(rest) => Some(seq![p] + rest),
                None => None,
            },
            None => None,
        }
    }
}

/// The animation a descriptor text denotes, or `None` where the strict
/// schema rejects it: the text must be a TOML document whose single
/// top-level key is `part`, holding the list of clip entries.
pub open spec fn spec_parse(text: Seq<char>) -> Option<Seq<PartView>> {
    if !toml_accepts(text) {
        None
    } else {
        match spec_node_of(spec_document_of(text)) {
            TomlNode::Table(t) => {
                let entries = spec_entries_of(t);
                if entries.len() == 1 && entries[0].0@ == "part"@ {
                    match spec_node_of(entries[0].1) {
                        TomlNode::List(items) => spec_clips_of(items@),
                        _ => None,
                    }
                } else {
                    None
                }
            },
            _ => None,
        }
    }
}

impl Animation {
    /// Deserialize the descriptor document, strictly: unknown fields
    /// anywhere are rejected, and every rejection is a `ParseError`. The
    /// text goes through the toml crate; the schema of what comes back --
    /// one `part` list of clip entries, each built as
    /// `spec_part_from_fields` states -- is applied by verified code, and
    /// the result is exactly the animation `spec_parse` denotes.
    pub fn parse(text: &str) -> (r: Result<Animation, ConfigError>)
        ensures
            r is Err ==> (r matches Err(ConfigError::ParseError)),
            match (r, spec_parse(text@)) {
                (Ok(a), Some(clips)) => a@ == clips,
                (Err(_), None) => true,
                _ => false,
            },
    {
        let value = match toml_parse(text) {
            Ok(v) => v,
            Err(_) => {
                return Err(ConfigError::ParseError);
            },
        };
        let table = match classify(value) {
            TomlNode::Table(t) => t,
            _ => {
                return Err(ConfigError::ParseError);
            },
        };
        let mut entries = table_entries(table);
        if entries.len() != 1 {
            return Err(ConfigError::ParseError);
        }
        let (key, clips_value) = entries.remove(0);
        if !(key == "part".to_owned()) {
            return Err(ConfigError::ParseError);
        }
        let mut items = match classify(clips_value) {
            TomlNode::List(l) => l,
            _ => {
                return Err(ConfigError::ParseError);
            },
        };
        let ghost items0 = items@;
        proof {
            assert(spec_parse(text@) == spec_clips_of(items0));
        }
        let mut parts: Vec<Part> = Vec::new();
        while items.len() > 0
            invariant
                spec_parse(text@) == spec_clips_of(items0),
                spec_clips_of(items0) == (match spec_clips_of(items@) {
                    Some(rest) => Some(part_views(parts@) + rest),
                    None => None::<Seq<PartView>>,
                }),
            decreases items.len(),
        {
            let ghost before = items@;
            let ghost built = part_views(parts@);
            let item = items.remove(0);
            proof {
                assert(items@ =~= before.drop_first());
            }
            let entry_table = match classify(item) {
                TomlNode::Table(t) => t,
                _ => {
                    return Err(ConfigError::ParseError);
                },
            };
            let ghost entry_table0 = entry_table;
            let mut raw = table_entries(entry_table);
            let ghost raw0 = raw@;
            let mut fields: Vec<(String, FieldValue)> = Vec::new();
            while raw.len() > 0
                invariant
                    raw0 == spec_entries_of(entry_table0),
                    fields@.len() + raw@.len() == raw0.len(),
                    forall|k: int|
                        0 <= k < fields@.len() ==> fields@[k] == (
                            raw0[k].0,
                            spec_field_of(spec_node_of(raw0[k].1)),
                        ),
                    forall|k: int| 0 <= k < raw@.len() ==> raw@[k] == raw0[fields@.len() + k],
                decreases raw.len(),
            {
                let ghost raw_before = raw@;
                let (raw_key, raw_value) = raw.remove(0);
                proof {
                    assert(raw@ =~= raw_before.drop_first());
                }
                let node = classify(raw_value);
                fields.push((raw_key, field_value(node)));
            }
            proof {
                assert(fields@ =~= spec_fields_of(raw0));
            }
            let part = match part_from_fields(&fields) {
                Some(p) => p,
                None => {
                    return Err(ConfigError::ParseError);
                },
            };
            parts.push(part);
            proof {
                assert(part_views(parts@) =~= built.push(part@));
                if spec_clips_of(items@) is Some {
                    let rest = spec_clips_of(items@)->Some_0;
                    assert(built + (seq![part@] + rest) =~= built.push(part@) + rest);
                }
            }
        }
        proof {
            assert(items@ =~= Seq::<toml::Value>::empty());
            assert(part_views(parts@) + Seq::<PartView>::empty()
                =~= part_views(parts@));
        }
        Ok(Animation { parts })
    }
}

} // verus!
