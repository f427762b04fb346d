use vstd::prelude::*;

verus! {

/// serde_json's JSON value type, declared so that library signatures can carry
/// it; what a value holds is opaque to verification and is read only through
/// the wrappers below.
#[verifier::external_type_specification]
#[verifier::external_body]
pub struct ExValue(serde_json::Value);

/// What one key of a rule object holds, reduced to the shapes the rule grammar
/// distinguishes: absent, a string, an integer, or anything else.
pub enum JsonField {
    Absent,
    Str(String),
    Int(i64),
    Other,
}

/// The shape of a rule-object field.
pub enum JFieldV {
    Absent,
    Str(Seq<char>),
    Int(i64),
    Other,
}

impl View for JsonField {
    type V = JFieldV;

    open spec fn view(&self) -> JFieldV {
        match self {
            JsonField::Absent => JFieldV::Absent,
            JsonField::Str(s) => JFieldV::Str(s@),
            JsonField::Int(i) => JFieldV::Int(*i),
            JsonField::Other => JFieldV::Other,
        }
    }
}

/// The six rule keys of one JSON rule object, each reduced to its shape.
pub struct RuleFields {
    pub name: JsonField,
    pub link_flair_pattern: JsonField,
    pub product_type_pattern: JsonField,
    pub description_pattern: JsonField,
    pub price_min: JsonField,
    pub price_max: JsonField,
}

/// The shape of one rule object's six keys.
pub struct RuleFieldsV {
    pub name: JFieldV,
    pub link_flair_pattern: JFieldV,
    pub product_type_pattern: JFieldV,
    pub description_pattern: JFieldV,
    pub price_min: JFieldV,
    pub price_max: JFieldV,
}

impl View for RuleFields {
    type V = RuleFieldsV;

    open spec fn view(&self) -> RuleFieldsV {
        RuleFieldsV {
            name: self.name@,
            link_flair_pattern: self.link_flair_pattern@,
            product_type_pattern: self.product_type_pattern@,
            description_pattern: self.description_pattern@,
            price_min: self.price_min@,
            price_max: self.price_max@,
        }
    }
}

/// Why a rule-file text yields no rule objects at all.
pub enum RuleFileErr {
    /// Not valid JSON; carries the syntax error's message.
    Syntax(String),
    /// Valid JSON whose top level is not an array.
    NotArray,
}

/// The shape of a whole-file failure.
pub enum RuleFileErrV {
    Syntax(Seq<char>),
    NotArray,
}

impl View for RuleFileErr {
    type V = RuleFileErrV;

    open spec fn view(&self) -> RuleFileErrV {
        match self {
            RuleFileErr::Syntax(msg) => RuleFileErrV::Syntax(msg@),
            RuleFileErr::NotArray => RuleFileErrV::NotArray,
        }
    }
}

pub open spec fn view_rule_objects(v: &Vec<Option<RuleFields>>) -> Seq<Option<RuleFieldsV>> {
    v@.map_values(
        |o: Option<RuleFields>|
            match o {
                Some(f) => Some(f@),
                None => None,
            },
    )
}

/// What serde_json::from_str yields for a rule-file text, reduced to the
/// library's plain shape: either the array's elements in order — each a rule
/// object's six keys, or nothing for an element that is not an object — or why
/// the text holds no array. A function of the text alone.
pub uninterp spec fn rule_file_fields(text: Seq<char>) -> Result<
    Seq<Option<RuleFieldsV>>,
    RuleFileErrV,
>;

/// Relies on serde_json::Value::is_object: whether the value is a JSON object.
#[verifier::external_body]
pub(crate) fn json_is_object(v: &serde_json::Value) -> bool {
    v.is_object()
}

/// Relies on serde_json's Value::get, Value::as_str and Value::as_i64:
/// classifies what the object holds at `key`, moving the value out unchanged.
#[verifier::external_body]
pub(crate) fn json_rule_field(v: &serde_json::Value, key: &str) -> JsonField {
    match v.get(key) {
        None => JsonField::Absent,
        Some(x) => {
            if let Some(s) = x.as_str() {
                JsonField::Str(s.to_owned())
            } else if let Some(i) = x.as_i64() {
                JsonField::Int(i)
            } else {
                JsonField::Other
            }
        },
    }
}

/// Relies on serde_json::from_str: parses the rule-file text and converts the
/// parsed value, element by element and key by key, to the library's plain
/// shape, which depends on the text alone.
#[verifier::external_body]
pub(crate) fn read_rule_objects(text: &str) -> (r: Result<Vec<Option<RuleFields>>, RuleFileErr>)
    ensures
        match r {
            Ok(v) => rule_file_fields(text@) == Ok::<Seq<Option<RuleFieldsV>>, RuleFileErrV>(
                view_rule_objects(&v),
            ),
            Err(e) => rule_file_fields(text@) == Err::<Seq<Option<RuleFieldsV>>, RuleFileErrV>(
                e@,
            ),
        },
{
    let val: serde_json::Value = match serde_json::from_str(text) {
        Ok(v) => v,
        Err(e) => return Err(RuleFileErr::Syntax(e.to_string())),
    };
    let Some(arr) = val.as_array() else {
        return Err(RuleFileErr::NotArray);
    };
    Ok(arr.iter().map(|v| if v.is_object() { Some(rule_fields_of(v)) } else { None }).collect())
}

/// Relies on serde_json's per-key accessors, through `json_rule_field`: the
/// six rule keys of one object.
#[verifier::external_body]
pub(crate) fn rule_fields_of(v: &serde_json::Value) -> RuleFields {
    RuleFields {
        name: json_rule_field(v, "name"),
        link_flair_pattern: json_rule_field(v, "link_flair_pattern"),
        product_type_pattern: json_rule_field(v, "product_type_pattern"),
        description_pattern: json_rule_field(v, "description_pattern"),
        price_min: json_rule_field(v, "price_min"),
        price_max: json_rule_field(v, "price_max"),
    }
}

} // verus!
