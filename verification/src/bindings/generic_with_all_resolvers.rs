//! A type that is generic itself and names all three operations: a date and
//! time in a time zone, written as RFC 3339 text.

use vstd::prelude::*;
use vstd::string::*;
use core::marker::PhantomData;
use crate::binding::{BindingModel, ScalarAttrs, ScalarAttrsModel, ScalarBinding, Shape};
use crate::datetime::{
    format_rfc3339,
    is_valid_instant,
    parse_rfc3339,
    rfc3339_parse,
    rfc3339_text,
    valid_instant,
    TimeZone,
    Utc,
};
use crate::error::{ConversionError, ConversionErrorModel};
use crate::scalar::{resolve_complete, resolved, round_trips, GraphQLScalar};
use crate::scalar_value::{DefaultScalarValue, ScalarModel, ScalarValue};
use crate::schema::GraphQLType;
use crate::token::{ParseError, ParseErrorModel, ScalarToken, TokenModel};
use crate::value::{InputModel, InputValue, Value, ValueModel};

verus! {

/// An instant of time, seen from the time zone `Tz`. It holds the seconds
/// since 1970-01-01T00:00:00 UTC and the nanoseconds of the second, and
/// always an instant that can be written out.
pub struct CustomDateTime<Tz> {
    secs: i64,
    nanos: u32,
    zone: PhantomData<Tz>,
}

impl<Tz: TimeZone> View for CustomDateTime<Tz> {
    type V = (i64, u32);

    closed spec fn view(&self) -> (i64, u32) {
        (self.secs, self.nanos)
    }
}

/// The message of a text that is no RFC 3339 date and time.
pub open spec fn parse_failure(reason: Seq<char>) -> ConversionErrorModel {
    ConversionErrorModel::Rejected { message: "Failed to parse CustomDateTime: "@ + reason }
}

/// What becomes of the result of reading the text: the instant, or the
/// reason of the failure in a message.
pub open spec fn from_parsed_spec(parsed: Result<(i64, u32), Seq<char>>) -> Result<
    (i64, u32),
    ConversionErrorModel,
> {
    match parsed {
        Ok(at) => Ok(at),
        Err(reason) => Err(parse_failure(reason)),
    }
}

/// The declaration of the type: several fields, all three operations
/// named, and the URL of RFC 3339.
pub open spec fn date_time_attrs() -> ScalarAttrsModel {
    ScalarAttrsModel {
        specified_by_url: Some("https://tools.ietf.org/html/rfc3339"@),
        shape: Shape::MultiField,
        to_output_with: true,
        from_input_with: true,
        parse_token_with: true,
        ..ScalarAttrsModel::plain("CustomDateTime"@)
    }
}

impl<Tz> CustomDateTime<Tz> {
    #[verifier::type_invariant]
    spec fn valid(&self) -> bool {
        valid_instant(self.secs as int, self.nanos as int)
    }
}

impl<Tz: TimeZone> CustomDateTime<Tz> {
    /// The instant `secs` seconds and `nanos` nanoseconds after the start
    /// of 1970 in UTC; `None` exactly where that is no instant that can be
    /// held.
    pub fn from_timestamp(secs: i64, nanos: u32) -> (r: Option<Self>)
        ensures
            match r {
                Some(dt) => valid_instant(secs as int, nanos as int) && dt@ == (secs, nanos),
                None => !valid_instant(secs as int, nanos as int),
            },
    {
        if is_valid_instant(secs, nanos) {
            Some(CustomDateTime { secs, nanos, zone: PhantomData })
        } else {
            None
        }
    }

    /// The seconds since 1970-01-01T00:00:00 UTC.
    pub fn timestamp(&self) -> (r: i64)
        ensures
            r == self@.0,
            valid_instant(self@.0 as int, self@.1 as int),
    {
        proof {
            use_type_invariant(self);
        }
        self.secs
    }

    /// The nanoseconds since the last whole second.
    pub fn timestamp_subsec_nanos(&self) -> (r: u32)
        ensures
            r == self@.1,
    {
        self.nanos
    }

    /// What becomes of the result of reading a text: the instant that was
    /// read, or an error whose message gives the reason after
    /// `Failed to parse CustomDateTime: `.
    pub fn from_parsed(parsed: Result<(i64, u32), String>) -> (r: Result<Self, ConversionError>)
        requires
            parsed matches Ok(at) ==> valid_instant(at.0 as int, at.1 as int),
        ensures
            match (parsed, r) {
                (Ok(at), Ok(dt)) => dt@ == at,
                (Err(reason), Err(e)) => e@ == parse_failure(reason@),
                _ => false,
            },
    {
        match parsed {
            Ok(at) => Ok(CustomDateTime { secs: at.0, nanos: at.1, zone: PhantomData }),
            Err(reason) => {
                let mut message = String::from_str("Failed to parse CustomDateTime: ");
                message.append(reason.as_str());
                Err(ConversionError::rejected(message))
            },
        }
    }
}

impl<S: ScalarValue, Tz: TimeZone> GraphQLScalar<S> for CustomDateTime<Tz> {
    open spec fn encodable(v: (i64, u32)) -> bool {
        true
    }

    open spec fn encoded(v: (i64, u32)) -> ValueModel {
        ValueModel::Scalar(ScalarModel::String(rfc3339_text(v.0, v.1, Tz::offset())))
    }

    open spec fn decoded(v: InputModel) -> Result<(i64, u32), ConversionErrorModel> {
        match v.as_string() {
            Some(text) => from_parsed_spec(rfc3339_parse(text)),
            None => Err(ConversionErrorModel::mismatch("String"@, v)),
        }
    }

    open spec fn validated(t: TokenModel) -> Result<ScalarModel, ParseErrorModel> {
        <String as GraphQLScalar<S>>::validated(t)
    }

    open spec fn binding_spec() -> BindingModel {
        resolved(date_time_attrs())
    }

    fn to_output(&self) -> (r: Value<S>) {
        let text = format_rfc3339(self.timestamp(), self.timestamp_subsec_nanos(), Tz::offset_seconds());
        Value::scalar(S::from_string(text))
    }

    fn from_input(v: &InputValue<S>) -> (r: Result<Self, ConversionError>) {
        match v.as_string_value() {
            Some(text) => Self::from_parsed(parse_rfc3339(text)),
            None => Err(ConversionError::type_mismatch("String", v)),
        }
    }

    fn parse_token<'a>(t: ScalarToken<'a>) -> (r: Result<S, ParseError<'a>>) {
        <String as GraphQLScalar<S>>::parse_token(t)
    }

    fn binding() -> (r: ScalarBinding) {
        resolve_complete(
            &ScalarAttrs::new("CustomDateTime").multi_field().to_output_with().from_input_with().parse_token_with().specified_by_url(
                "https://tools.ietf.org/html/rfc3339",
            ),
        )
    }
}

/// An instant comes back from its encoding wherever `chrono` reads back the
/// text that it wrote for the instant.
pub proof fn lemma_date_time_round_trips<S: ScalarValue, Tz: TimeZone>(v: (i64, u32))
    requires
        rfc3339_parse(rfc3339_text(v.0, v.1, Tz::offset())) == Ok::<(i64, u32), Seq<char>>(v),
    ensures
        round_trips::<S, CustomDateTime<Tz>>(v),
{
}

/// A query root with one field, over the default scalar value type.
#[derive(Clone, Copy, Debug, PartialEq, Eq)]
pub struct QueryRoot;

impl GraphQLType<DefaultScalarValue> for QueryRoot {
    open spec fn name_spec(&self) -> Seq<char> {
        "QueryRoot"@
    }

    open spec fn scalars_spec(&self) -> Seq<BindingModel> {
        seq![<CustomDateTime<Utc> as GraphQLScalar<DefaultScalarValue>>::binding_spec()]
    }

    fn name(&self) -> (r: String) {
        String::from_str("QueryRoot")
    }

    fn scalars(&self) -> (r: Vec<ScalarBinding>) {
        let mut r = Vec::new();
        r.push(<CustomDateTime<Utc> as GraphQLScalar<DefaultScalarValue>>::binding());
        r
    }
}

impl QueryRoot {
    /// The field `dateTime`: hands its argument back.
    pub fn date_time(value: CustomDateTime<Utc>) -> (r: CustomDateTime<Utc>)
        ensures
            r == value,
    {
        value
    }
}

} // verus!
