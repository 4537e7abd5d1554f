//! Input and output value trees.
//!
//! An [`InputValue`] is what argument coercion hands to a decoder; a
//! [`Value`] is what an encoder hands to the response serializer. Both are
//! trees over a scalar value type, and both are viewed as trees over
//! [`ScalarModel`].

use vstd::prelude::*;
use vstd::string::*;
use crate::scalar_value::{FloatValue, ScalarModel, ScalarValue};

verus! {

/// What an input value is: a tree over scalar models.
pub enum InputModel {
    Null,
    Scalar(ScalarModel),
    Enum(Seq<char>),
    Variable(Seq<char>),
    List(Seq<InputModel>),
    Object(Seq<(Seq<char>, InputModel)>),
}

/// What an output value is: a tree over scalar models.
pub enum ValueModel {
    Null,
    Scalar(ScalarModel),
    List(Seq<ValueModel>),
    Object(Seq<(Seq<char>, ValueModel)>),
}

/// The texts of `parts` with `, ` between each two.
pub open spec fn comma_joined(parts: Seq<Seq<char>>) -> Seq<char>
    decreases parts.len(),
{
    if parts.len() == 0 {
        Seq::empty()
    } else if parts.len() == 1 {
        parts[0]
    } else {
        comma_joined(parts.drop_last()) + ", "@ + parts.last()
    }
}

impl InputModel {
    /// The scalar, where the value is one.
    pub open spec fn as_scalar(self) -> Option<ScalarModel> {
        match self {
            InputModel::Scalar(s) => Some(s),
            _ => None,
        }
    }

    /// The integer, where the value is an integer scalar.
    pub open spec fn as_int(self) -> Option<i32> {
        match self {
            InputModel::Scalar(s) => s.as_int(),
            _ => None,
        }
    }

    /// The float's text, where the value is a float scalar.
    pub open spec fn as_float(self) -> Option<Seq<char>> {
        match self {
            InputModel::Scalar(s) => s.as_float(),
            _ => None,
        }
    }

    /// The characters, where the value is a string scalar.
    pub open spec fn as_string(self) -> Option<Seq<char>> {
        match self {
            InputModel::Scalar(s) => s.as_string(),
            _ => None,
        }
    }

    /// The boolean, where the value is a boolean scalar.
    pub open spec fn as_boolean(self) -> Option<bool> {
        match self {
            InputModel::Scalar(s) => s.as_boolean(),
            _ => None,
        }
    }

    /// The texts of the items of a list.
    pub open spec fn item_texts(items: Seq<InputModel>) -> Seq<Seq<char>>
        decreases items,
    {
        Seq::new(
            items.len(),
            |i: int|
                if 0 <= i < items.len() {
                    items[i].text()
                } else {
                    Seq::empty()
                },
        )
    }

    /// The texts of the fields of an object, each `name: value`.
    pub open spec fn field_texts(fields: Seq<(Seq<char>, InputModel)>) -> Seq<Seq<char>>
        decreases fields,
    {
        Seq::new(
            fields.len(),
            |i: int|
                if 0 <= i < fields.len() {
                    fields[i].0 + ": "@ + fields[i].1.text()
                } else {
                    Seq::empty()
                },
        )
    }

    /// The value written out as text, as an error message quotes it:
    /// `null`; a string scalar between double quotes, any other scalar as its
    /// own text; an enum by its name; a variable as `$name`; a list as
    /// `[a, b]`; an object as `{k: a, l: b}`.
    pub open spec fn text(self) -> Seq<char>
        decreases self,
    {
        match self {
            InputModel::Null => "null"@,
            InputModel::Scalar(s) => match s {
                ScalarModel::String(t) => "\""@ + t + "\""@,
                _ => s.text(),
            },
            InputModel::Enum(n) => n,
            InputModel::Variable(n) => "$"@ + n,
            InputModel::List(items) => "["@ + comma_joined(Self::item_texts(items)) + "]"@,
            InputModel::Object(fields) => "{"@ + comma_joined(Self::field_texts(fields)) + "}"@,
        }
    }
}

impl ValueModel {
    /// The scalar, where the value is one.
    pub open spec fn as_scalar(self) -> Option<ScalarModel> {
        match self {
            ValueModel::Scalar(s) => Some(s),
            _ => None,
        }
    }

    /// The same tree read as an input value: what a client that sent the
    /// output back as a literal would have sent.
    pub open spec fn to_input(self) -> InputModel
        decreases self,
    {
        match self {
            ValueModel::Null => InputModel::Null,
            ValueModel::Scalar(s) => InputModel::Scalar(s),
            ValueModel::List(items) => InputModel::List(
                Seq::new(
                    items.len(),
                    |i: int|
                        if 0 <= i < items.len() {
                            items[i].to_input()
                        } else {
                            InputModel::Null
                        },
                ),
            ),
            ValueModel::Object(fields) => InputModel::Object(
                Seq::new(
                    fields.len(),
                    |i: int|
                        if 0 <= i < fields.len() {
                            (fields[i].0, fields[i].1.to_input())
                        } else {
                            (Seq::empty(), InputModel::Null)
                        },
                ),
            ),
        }
    }
}

/// An input value: a literal or a variable's value after coercion.
#[derive(Debug, PartialEq)]
pub enum InputValue<S> {
    Null,
    Scalar(S),
    Enum(String),
    Variable(String),
    List(Vec<InputValue<S>>),
    Object(Vec<(String, InputValue<S>)>),
}

/// An output value: what a resolver's result becomes in the response.
#[derive(Debug, PartialEq)]
pub enum Value<S> {
    Null,
    Scalar(S),
    List(Vec<Value<S>>),
    Object(Vec<(String, Value<S>)>),
}

impl<S: ScalarValue> InputValue<S> {
    /// The tree that this value is, over scalar models.
    pub open spec fn model(&self) -> InputModel
        decreases self,
    {
        match self {
            InputValue::Null => InputModel::Null,
            InputValue::Scalar(s) => InputModel::Scalar(s.model()),
            InputValue::Enum(n) => InputModel::Enum(n@),
            InputValue::Variable(n) => InputModel::Variable(n@),
            InputValue::List(items) => InputModel::List(
                Seq::new(
                    items@.len(),
                    |i: int|
                        if 0 <= i < items@.len() {
                            items@[i].model()
                        } else {
                            InputModel::Null
                        },
                ),
            ),
            InputValue::Object(fields) => InputModel::Object(
                Seq::new(
                    fields@.len(),
                    |i: int|
                        if 0 <= i < fields@.len() {
                            (fields@[i].0@, fields@[i].1.model())
                        } else {
                            (Seq::empty(), InputModel::Null)
                        },
                ),
            ),
        }
    }
}

impl<S: ScalarValue> Value<S> {
    /// The tree that this value is, over scalar models.
    pub open spec fn model(&self) -> ValueModel
        decreases self,
    {
        match self {
            Value::Null => ValueModel::Null,
            Value::Scalar(s) => ValueModel::Scalar(s.model()),
            Value::List(items) => ValueModel::List(
                Seq::new(
                    items@.len(),
                    |i: int|
                        if 0 <= i < items@.len() {
                            items@[i].model()
                        } else {
                            ValueModel::Null
                        },
                ),
            ),
            Value::Object(fields) => ValueModel::Object(
                Seq::new(
                    fields@.len(),
                    |i: int|
                        if 0 <= i < fields@.len() {
                            (fields@[i].0@, fields@[i].1.model())
                        } else {
                            (Seq::empty(), ValueModel::Null)
                        },
                ),
            ),
        }
    }
}

impl<S: ScalarValue> View for InputValue<S> {
    type V = InputModel;

    open spec fn view(&self) -> InputModel {
        self.model()
    }
}

impl<S: ScalarValue> View for Value<S> {
    type V = ValueModel;

    open spec fn view(&self) -> ValueModel {
        self.model()
    }
}

impl<S: ScalarValue> InputValue<S> {
    /// The null value.
    pub fn null() -> (r: Self)
        ensures
            r@ == InputModel::Null,
    {
        InputValue::Null
    }

    /// A scalar value.
    pub fn scalar(s: S) -> (r: Self)
        ensures
            r@ == InputModel::Scalar(s.model()),
    {
        InputValue::Scalar(s)
    }

    /// The scalar inside, `None` for a value that is no scalar.
    pub fn as_scalar_value(&self) -> (r: Option<&S>)
        ensures
            match r {
                Some(s) => self@.as_scalar() == Some(s.model()),
                None => self@.as_scalar() is None,
            },
    {
        match self {
            InputValue::Scalar(s) => Some(s),
            _ => None,
        }
    }

    /// The integer inside, `None` for anything but an integer scalar.
    pub fn as_int_value(&self) -> (r: Option<i32>)
        ensures
            r == self@.as_int(),
    {
        match self {
            InputValue::Scalar(s) => s.as_int(),
            _ => None,
        }
    }

    /// The float inside, `None` for anything but a float scalar.
    pub fn as_float_value(&self) -> (r: Option<FloatValue>)
        ensures
            match r {
                Some(f) => self@.as_float() == Some(f@),
                None => self@.as_float() is None,
            },
    {
        match self {
            InputValue::Scalar(s) => s.as_float(),
            _ => None,
        }
    }

    /// The string inside, `None` for anything but a string scalar.
    pub fn as_string_value(&self) -> (r: Option<&str>)
        ensures
            match r {
                Some(s) => self@.as_string() == Some(s@),
                None => self@.as_string() is None,
            },
    {
        match self {
            InputValue::Scalar(s) => s.as_str(),
            _ => None,
        }
    }

    /// The boolean inside, `None` for anything but a boolean scalar.
    pub fn as_boolean_value(&self) -> (r: Option<bool>)
        ensures
            r == self@.as_boolean(),
    {
        match self {
            InputValue::Scalar(s) => s.as_boolean(),
            _ => None,
        }
    }

    /// The value written out as text, as an error message quotes it.
    pub fn to_text(&self) -> (r: String)
        ensures
            r@ == self@.text(),
        decreases self, 1nat,
    {
        match self {
            InputValue::Null => String::from_str("null"),
            InputValue::Scalar(s) => {
                match s.as_str() {
                    Some(t) => {
                        let mut out = String::from_str("\"");
                        out.append(t);
                        out.append("\"");
                        assert(out@ =~= self@.text());
                        out
                    },
                    None => {
                        let out = s.to_text();
                        assert(out@ == self@.text());
                        out
                    },
                }
            },
            InputValue::Enum(n) => n.clone(),
            InputValue::Variable(n) => {
                let mut out = String::from_str("$");
                out.append(n.as_str());
                assert(out@ =~= self@.text());
                out
            },
            InputValue::List(items) => {
                let mut out = String::from_str("[");
                Self::append_items(&mut out, items);
                out.append("]");
                proof {
                    let models = self@->List_0;
                    assert(items@.map_values(|v: InputValue<S>| v@) =~= models);
                    assert(out@ =~= self@.text());
                }
                out
            },
            InputValue::Object(fields) => {
                let mut out = String::from_str("{");
                Self::append_fields(&mut out, fields);
                out.append("}");
                proof {
                    let models = self@->Object_0;
                    assert(fields@.map_values(|f: (String, InputValue<S>)| (f.0@, f.1@)) =~= models);
                    assert(out@ =~= self@.text());
                }
                out
            },
        }
    }

    /// Appends the items of a list, separated by `, `.
    fn append_items(out: &mut String, items: &Vec<InputValue<S>>)
        ensures
            final(out)@ == old(out)@ + comma_joined(InputModel::item_texts(items@.map_values(|v: InputValue<S>| v@))),
        decreases items, 0nat,
    {
        let ghost models = items@.map_values(|v: InputValue<S>| v@);
        let ghost parts = InputModel::item_texts(models);
        let mut i: usize = 0;
        while i < items.len()
            invariant
                0 <= i <= items.len(),
                models == items@.map_values(|v: InputValue<S>| v@),
                parts == InputModel::item_texts(models),
                parts.len() == items.len(),
                out@ == old(out)@ + comma_joined(parts.subrange(0, i as int)),
            decreases items.len() - i,
        {
            if i > 0 {
                out.append(", ");
            }
            let t = items[i].to_text();
            out.append(t.as_str());
            proof {
                let shorter = parts.subrange(0, i as int);
                let longer = parts.subrange(0, i + 1);
                assert(longer.drop_last() =~= shorter);
                assert(longer.last() == parts[i as int]);
                assert(parts[i as int] == models[i as int].text());
                assert(models[i as int] == items@[i as int]@);
                if i == 0 {
                    assert(comma_joined(shorter) =~= Seq::<char>::empty());
                    assert(comma_joined(longer) =~= parts[0]);
                }
                assert(out@ =~= old(out)@ + comma_joined(longer));
            }
            i = i + 1;
        }
        assert(parts.subrange(0, i as int) =~= parts);
    }

    /// Appends the fields of an object, each `name: value`, separated by `, `.
    fn append_fields(out: &mut String, fields: &Vec<(String, InputValue<S>)>)
        ensures
            final(out)@ == old(out)@ + comma_joined(
                InputModel::field_texts(fields@.map_values(|f: (String, InputValue<S>)| (f.0@, f.1@))),
            ),
        decreases fields, 0nat,
    {
        let ghost models = fields@.map_values(|f: (String, InputValue<S>)| (f.0@, f.1@));
        let ghost parts = InputModel::field_texts(models);
        let mut i: usize = 0;
        while i < fields.len()
            invariant
                0 <= i <= fields.len(),
                models == fields@.map_values(|f: (String, InputValue<S>)| (f.0@, f.1@)),
                parts == InputModel::field_texts(models),
                parts.len() == fields.len(),
                out@ == old(out)@ + comma_joined(parts.subrange(0, i as int)),
            decreases fields.len() - i,
        {
            if i > 0 {
                out.append(", ");
            }
            let ghost before = out@;
            out.append(fields[i].0.as_str());
            out.append(": ");
            let t = fields[i].1.to_text();
            out.append(t.as_str());
            proof {
                let shorter = parts.subrange(0, i as int);
                let longer = parts.subrange(0, i + 1);
                assert(longer.drop_last() =~= shorter);
                assert(longer.last() == parts[i as int]);
                assert(models[i as int] == (fields@[i as int].0@, fields@[i as int].1@));
                assert(parts[i as int] == models[i as int].0 + ": "@ + models[i as int].1.text());
                assert(out@ =~= before + parts[i as int]);
                if i == 0 {
                    assert(comma_joined(shorter) =~= Seq::<char>::empty());
                    assert(comma_joined(longer) =~= parts[0]);
                }
                assert(out@ =~= old(out)@ + comma_joined(longer));
            }
            i = i + 1;
        }
        assert(parts.subrange(0, i as int) =~= parts);
    }
}

impl<S: ScalarValue> Value<S> {
    /// The null value.
    pub fn null() -> (r: Self)
        ensures
            r@ == ValueModel::Null,
    {
        Value::Null
    }

    /// A scalar value.
    pub fn scalar(s: S) -> (r: Self)
        ensures
            r@ == ValueModel::Scalar(s.model()),
    {
        Value::Scalar(s)
    }

    /// The same tree as an input value: what a client that sent the output
    /// back as a literal would have sent.
    pub fn to_input_value(&self) -> (r: InputValue<S>)
        ensures
            r@ == self@.to_input(),
        decreases self, 1nat,
    {
        match self {
            Value::Null => InputValue::Null,
            Value::Scalar(s) => InputValue::Scalar(s.duplicate()),
            Value::List(items) => {
                let r = InputValue::List(Self::items_to_input(items));
                assert(r@->List_0 =~= self@.to_input()->List_0);
                r
            },
            Value::Object(fields) => {
                let r = InputValue::Object(Self::fields_to_input(fields));
                assert(r@->Object_0 =~= self@.to_input()->Object_0);
                r
            },
        }
    }

    /// The items of a list as input values.
    fn items_to_input(items: &Vec<Value<S>>) -> (out: Vec<InputValue<S>>)
        ensures
            out@.len() == items@.len(),
            forall|k: int|
                0 <= k < items@.len() ==> (#[trigger] out@[k]).model() == items@[k].model().to_input(),
        decreases items, 0nat,
    {
        let mut out: Vec<InputValue<S>> = Vec::new();
        let mut i: usize = 0;
        while i < items.len()
            invariant
                0 <= i <= items.len(),
                out@.len() == i,
                forall|k: int| 0 <= k < i ==> (#[trigger] out@[k]).model() == items@[k].model().to_input(),
            decreases items.len() - i,
        {
            out.push(items[i].to_input_value());
            i = i + 1;
        }
        out
    }

    /// The fields of an object as fields of an input value.
    fn fields_to_input(fields: &Vec<(String, Value<S>)>) -> (out: Vec<(String, InputValue<S>)>)
        ensures
            out@.len() == fields@.len(),
            forall|k: int|
                0 <= k < fields@.len() ==> (#[trigger] out@[k]).0@ == fields@[k].0@ && out@[k].1.model()
                    == fields@[k].1.model().to_input(),
        decreases fields, 0nat,
    {
        let mut out: Vec<(String, InputValue<S>)> = Vec::new();
        let mut i: usize = 0;
        while i < fields.len()
            invariant
                0 <= i <= fields.len(),
                out@.len() == i,
                forall|k: int|
                    0 <= k < i ==> (#[trigger] out@[k]).0@ == fields@[k].0@ && out@[k].1.model()
                        == fields@[k].1.model().to_input(),
            decreases fields.len() - i,
        {
            out.push((fields[i].0.clone(), fields[i].1.to_input_value()));
            i = i + 1;
        }
        out
    }

    /// The scalar inside, `None` for a value that is no scalar.
    pub fn as_scalar(&self) -> (r: Option<&S>)
        ensures
            match r {
                Some(s) => self@.as_scalar() == Some(s.model()),
                None => self@.as_scalar() is None,
            },
    {
        match self {
            Value::Scalar(s) => Some(s),
            _ => None,
        }
    }
}

} // verus!
