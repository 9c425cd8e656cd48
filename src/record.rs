//! The target assignment record: its wire schema, decoding from a JSON object
//! or text, and encoding back to it.

use crate::decimal::{
    i8_text, i8_text_value, i8_value, int_text, lemma_i8_text_reads_back,
    lemma_u128_text_reads_back, nat_text, u128_value, unsigned_text, unsigned_text_value,
};
use crate::json::{
    json_quoted, lookup, parse_object, parsed_object, quoted, FieldModel, JsonField, JsonObject,
};
use vstd::prelude::*;

verus! {

/// A field of the record's wire schema.
#[derive(Debug, Clone, Copy, PartialEq, Eq, Structural)]
pub enum Field {
    Name,
    Game,
    Guid,
    GameId,
    User,
    Timestamp,
}

/// Why a payload is not a record.
#[derive(Debug, Clone, Copy, PartialEq, Eq, Structural)]
pub enum DecodeError {
    /// The text is not JSON, or its top level is not an object.
    Malformed,
    /// A required field is absent.
    Missing(Field),
    /// A field holds a value of the wrong type, or out of its range.
    Invalid(Field),
}

/// The name of a field on the wire.
pub open spec fn key_of(f: Field) -> Seq<char> {
    match f {
        Field::Name => "name"@,
        Field::Game => "game"@,
        Field::Guid => "guid"@,
        Field::GameId => "gameId"@,
        Field::User => "user"@,
        Field::Timestamp => "timestamp"@,
    }
}

impl Field {
    /// The name of this field on the wire.
    pub fn key(self) -> (r: &'static str)
        ensures
            r@ == key_of(self),
    {
        match self {
            Field::Name => "name",
            Field::Game => "game",
            Field::Guid => "guid",
            Field::GameId => "gameId",
            Field::User => "user",
            Field::Timestamp => "timestamp",
        }
    }
}

/// A "new target" assignment, as received from the coordinator.
#[derive(Debug, Clone)]
pub struct TargetRecord {
    pub name: Option<String>,
    pub game: i8,
    pub guid: Option<String>,
    pub game_id: Option<String>,
    pub user: String,
    pub timestamp: u128,
}

/// A record as plain values: strings as character sequences.
pub struct RecordModel {
    pub name: Option<Seq<char>>,
    pub game: i8,
    pub guid: Option<Seq<char>>,
    pub game_id: Option<Seq<char>>,
    pub user: Seq<char>,
    pub timestamp: u128,
}

/// An optional string as an optional character sequence.
pub open spec fn opt_view(o: Option<String>) -> Option<Seq<char>> {
    match o {
        Some(s) => Some(s@),
        None => None,
    }
}

impl View for TargetRecord {
    type V = RecordModel;

    open spec fn view(&self) -> RecordModel {
        RecordModel {
            name: opt_view(self.name),
            game: self.game,
            guid: opt_view(self.guid),
            game_id: opt_view(self.game_id),
            user: self.user@,
            timestamp: self.timestamp,
        }
    }
}

/// An optional string field: absent or null is no value.
pub open spec fn optional_text_field(e: Seq<(Seq<char>, FieldModel)>, f: Field) -> Result<
    Option<Seq<char>>,
    DecodeError,
> {
    match lookup(e, key_of(f)) {
        None => Ok(None),
        Some(FieldModel::Null) => Ok(None),
        Some(FieldModel::Text(s)) => Ok(Some(s)),
        Some(_) => Err(DecodeError::Invalid(f)),
    }
}

/// A required string field.
pub open spec fn text_field(e: Seq<(Seq<char>, FieldModel)>, f: Field) -> Result<
    Seq<char>,
    DecodeError,
> {
    match lookup(e, key_of(f)) {
        None => Err(DecodeError::Missing(f)),
        Some(FieldModel::Text(s)) => Ok(s),
        Some(_) => Err(DecodeError::Invalid(f)),
    }
}

/// A required integer field in the range of an `i8`.
pub open spec fn i8_field(e: Seq<(Seq<char>, FieldModel)>, f: Field) -> Result<i8, DecodeError> {
    match lookup(e, key_of(f)) {
        None => Err(DecodeError::Missing(f)),
        Some(FieldModel::Number(t)) => match i8_text_value(t) {
            Some(v) => Ok(v),
            None => Err(DecodeError::Invalid(f)),
        },
        Some(_) => Err(DecodeError::Invalid(f)),
    }
}

/// A required non-negative integer field in the range of a `u128`.
pub open spec fn u128_field(e: Seq<(Seq<char>, FieldModel)>, f: Field) -> Result<
    u128,
    DecodeError,
> {
    match lookup(e, key_of(f)) {
        None => Err(DecodeError::Missing(f)),
        Some(FieldModel::Number(t)) => match unsigned_text_value(t) {
            Some(v) => Ok(v),
            None => Err(DecodeError::Invalid(f)),
        },
        Some(_) => Err(DecodeError::Invalid(f)),
    }
}

/// The record that a JSON object's entries hold, or the first field, in schema
/// order, that keeps them from being one. Entries of other names are ignored.
pub open spec fn decode_entries(e: Seq<(Seq<char>, FieldModel)>) -> Result<RecordModel, DecodeError> {
    match optional_text_field(e, Field::Name) {
        Err(x) => Err(x),
        Ok(name) => match i8_field(e, Field::Game) {
            Err(x) => Err(x),
            Ok(game) => match optional_text_field(e, Field::Guid) {
                Err(x) => Err(x),
                Ok(guid) => match optional_text_field(e, Field::GameId) {
                    Err(x) => Err(x),
                    Ok(game_id) => match text_field(e, Field::User) {
                        Err(x) => Err(x),
                        Ok(user) => match u128_field(e, Field::Timestamp) {
                            Err(x) => Err(x),
                            Ok(timestamp) => Ok(
                                RecordModel { name, game, guid, game_id, user, timestamp },
                            ),
                        },
                    },
                },
            },
        },
    }
}

/// The record that a text payload holds: the text must be a JSON object.
pub open spec fn decode_text_spec(text: Seq<char>) -> Result<RecordModel, DecodeError> {
    match parsed_object(text) {
        None => Err(DecodeError::Malformed),
        Some(e) => decode_entries(e),
    }
}

/// A decoding result, with a decoded record as plain values.
pub open spec fn result_view(r: Result<TargetRecord, DecodeError>) -> Result<RecordModel, DecodeError> {
    match r {
        Ok(rec) => Ok(rec@),
        Err(x) => Err(x),
    }
}

/// The value a field takes on the wire for an optional string.
pub open spec fn optional_wire(o: Option<Seq<char>>) -> FieldModel {
    match o {
        Some(s) => FieldModel::Text(s),
        None => FieldModel::Null,
    }
}

/// The wire entries of a record, one per field, in schema order.
pub open spec fn wire_entries(m: RecordModel) -> Seq<(Seq<char>, FieldModel)> {
    seq![
        (key_of(Field::Name), optional_wire(m.name)),
        (key_of(Field::Game), FieldModel::Number(int_text(m.game as int))),
        (key_of(Field::Guid), optional_wire(m.guid)),
        (key_of(Field::GameId), optional_wire(m.game_id)),
        (key_of(Field::User), FieldModel::Text(m.user)),
        (key_of(Field::Timestamp), FieldModel::Number(nat_text(m.timestamp as nat))),
    ]
}

/// The JSON text of an optional string: its literal, or `null`.
pub open spec fn optional_json(o: Option<Seq<char>>) -> Seq<char> {
    match o {
        Some(s) => json_quoted(s),
        None => "null"@,
    }
}

/// The JSON text of a record: one member per field, in schema order, absent
/// values written as `null`.
pub open spec fn record_text(m: RecordModel) -> Seq<char> {
    "{\"name\":"@ + optional_json(m.name) + ",\"game\":"@ + int_text(m.game as int)
        + ",\"guid\":"@ + optional_json(m.guid) + ",\"gameId\":"@ + optional_json(m.game_id)
        + ",\"user\":"@ + json_quoted(m.user) + ",\"timestamp\":"@ + nat_text(
        m.timestamp as nat,
    ) + "}"@
}

fn optional_text_of(o: &JsonObject, f: Field) -> (r: Result<Option<String>, DecodeError>)
    ensures
        match r {
            Ok(v) => optional_text_field(o@, f) == Ok::<Option<Seq<char>>, DecodeError>(opt_view(v)),
            Err(x) => optional_text_field(o@, f) == Err::<Option<Seq<char>>, DecodeError>(x),
        },
{
    match o.get(f.key()) {
        None => Ok(None),
        Some(JsonField::Null) => Ok(None),
        Some(JsonField::Text(s)) => Ok(Some(s.clone())),
        Some(_) => Err(DecodeError::Invalid(f)),
    }
}

fn text_of(o: &JsonObject, f: Field) -> (r: Result<String, DecodeError>)
    ensures
        match r {
            Ok(v) => text_field(o@, f) == Ok::<Seq<char>, DecodeError>(v@),
            Err(x) => text_field(o@, f) == Err::<Seq<char>, DecodeError>(x),
        },
{
    match o.get(f.key()) {
        None => Err(DecodeError::Missing(f)),
        Some(JsonField::Text(s)) => Ok(s.clone()),
        Some(_) => Err(DecodeError::Invalid(f)),
    }
}

fn i8_of(o: &JsonObject, f: Field) -> (r: Result<i8, DecodeError>)
    ensures
        r == i8_field(o@, f),
{
    match o.get(f.key()) {
        None => Err(DecodeError::Missing(f)),
        Some(JsonField::Number(t)) => match i8_value(t.as_str()) {
            Some(v) => Ok(v),
            None => Err(DecodeError::Invalid(f)),
        },
        Some(_) => Err(DecodeError::Invalid(f)),
    }
}

fn u128_of(o: &JsonObject, f: Field) -> (r: Result<u128, DecodeError>)
    ensures
        r == u128_field(o@, f),
{
    match o.get(f.key()) {
        None => Err(DecodeError::Missing(f)),
        Some(JsonField::Number(t)) => match u128_value(t.as_str()) {
            Some(v) => Ok(v),
            None => Err(DecodeError::Invalid(f)),
        },
        Some(_) => Err(DecodeError::Invalid(f)),
    }
}

impl TargetRecord {
    /// Decodes a record from the entries of a JSON object.
    pub fn from_fields(o: &JsonObject) -> (r: Result<TargetRecord, DecodeError>)
        ensures
            result_view(r) == decode_entries(o@),
    {
        let name = match optional_text_of(o, Field::Name) {
            Ok(v) => v,
            Err(x) => return Err(x),
        };
        let game = match i8_of(o, Field::Game) {
            Ok(v) => v,
            Err(x) => return Err(x),
        };
        let guid = match optional_text_of(o, Field::Guid) {
            Ok(v) => v,
            Err(x) => return Err(x),
        };
        let game_id = match optional_text_of(o, Field::GameId) {
            Ok(v) => v,
            Err(x) => return Err(x),
        };
        let user = match text_of(o, Field::User) {
            Ok(v) => v,
            Err(x) => return Err(x),
        };
        let timestamp = match u128_of(o, Field::Timestamp) {
            Ok(v) => v,
            Err(x) => return Err(x),
        };
        Ok(TargetRecord { name, game, guid, game_id, user, timestamp })
    }

    /// Decodes a record from a JSON text payload.
    pub fn from_json(text: &str) -> (r: Result<TargetRecord, DecodeError>)
        ensures
            result_view(r) == decode_text_spec(text@),
    {
        match parse_object(text) {
            None => Err(DecodeError::Malformed),
            Some(o) => TargetRecord::from_fields(&o),
        }
    }
}

fn optional_wire_of(o: &Option<String>) -> (r: JsonField)
    ensures
        r@ == optional_wire(opt_view(*o)),
{
    match o {
        Some(s) => JsonField::Text(s.clone()),
        None => JsonField::Null,
    }
}

fn push_optional_json(out: &mut String, o: &Option<String>)
    ensures
        final(out)@ == old(out)@ + optional_json(opt_view(*o)),
{
    match o {
        Some(s) => out.append(quoted(s.as_str()).as_str()),
        None => out.append("null"),
    }
}

impl TargetRecord {
    /// The wire entries of this record, one per field, in schema order.
    pub fn to_fields(&self) -> (r: JsonObject)
        ensures
            r@ == wire_entries(self@),
    {
        let mut entries: Vec<(String, JsonField)> = Vec::new();
        entries.push((String::from_str(Field::Name.key()), optional_wire_of(&self.name)));
        entries.push((String::from_str(Field::Game.key()), JsonField::Number(i8_text(self.game))));
        entries.push((String::from_str(Field::Guid.key()), optional_wire_of(&self.guid)));
        entries.push((String::from_str(Field::GameId.key()), optional_wire_of(&self.game_id)));
        entries.push((String::from_str(Field::User.key()), JsonField::Text(self.user.clone())));
        entries.push(
            (String::from_str(Field::Timestamp.key()), JsonField::Number(unsigned_text(self.timestamp))),
        );
        let r = JsonObject { entries };
        assert(r@ =~= wire_entries(self@));
        r
    }

    /// The JSON text of this record, absent values written as `null`.
    pub fn to_json(&self) -> (r: String)
        ensures
            r@ == record_text(self@),
    {
        let mut out = String::from_str("{\"name\":");
        push_optional_json(&mut out, &self.name);
        out.append(",\"game\":");
        out.append(i8_text(self.game).as_str());
        out.append(",\"guid\":");
        push_optional_json(&mut out, &self.guid);
        out.append(",\"gameId\":");
        push_optional_json(&mut out, &self.game_id);
        out.append(",\"user\":");
        out.append(quoted(self.user.as_str()).as_str());
        out.append(",\"timestamp\":");
        out.append(unsigned_text(self.timestamp).as_str());
        out.append("}");
        out
    }
}

proof fn lemma_keys_distinct()
    ensures
        forall|f: Field, g: Field| f != g ==> key_of(f) != key_of(g),
{
    reveal_strlit("name");
    reveal_strlit("game");
    reveal_strlit("guid");
    reveal_strlit("gameId");
    reveal_strlit("user");
    reveal_strlit("timestamp");
    assert forall|f: Field, g: Field| f != g implies key_of(f) != key_of(g) by {
        let (a, b) = (key_of(f), key_of(g));
        if a.len() == b.len() && a[0] == b[0] {
            assert(a[1] != b[1]);
        }
    }
}

/// Encoding a record to its wire entries and decoding them gives the same
/// record back, whichever optional fields are present.
pub proof fn lemma_round_trip(m: RecordModel)
    ensures
        decode_entries(wire_entries(m)) == Ok::<RecordModel, DecodeError>(m),
{
    let e = wire_entries(m);
    lemma_keys_distinct();
    reveal_with_fuel(lookup, 7);
    assert(e.drop_first() =~= e.subrange(1, 6));
    assert(e.drop_first().drop_first() =~= e.subrange(2, 6));
    assert(e.subrange(2, 6).drop_first() =~= e.subrange(3, 6));
    assert(e.subrange(3, 6).drop_first() =~= e.subrange(4, 6));
    assert(e.subrange(4, 6).drop_first() =~= e.subrange(5, 6));
    lemma_i8_text_reads_back(m.game);
    lemma_u128_text_reads_back(m.timestamp);
}

/// Whether an entry value fits a field of the schema: an optional string is
/// absent, null or a string; the game an integer in `i8` range; the user a
/// string; the timestamp a non-negative integer in `u128` range.
pub open spec fn conforms(e: Seq<(Seq<char>, FieldModel)>, f: Field) -> bool {
    match f {
        Field::Game => i8_field(e, f) is Ok,
        Field::User => text_field(e, f) is Ok,
        Field::Timestamp => u128_field(e, f) is Ok,
        _ => optional_text_field(e, f) is Ok,
    }
}

/// The value of an optional string field: exactly the string where one is
/// given, no value where the field is omitted or null.
pub open spec fn given_text(v: Option<FieldModel>) -> Option<Seq<char>> {
    match v {
        Some(FieldModel::Text(s)) => Some(s),
        _ => None,
    }
}

/// A text payload whose object fits every field of the schema decodes, and
/// each field of the record is exactly what the payload gives: an optional
/// field has no value where it was omitted (or null) and the given string
/// where it was present.
pub proof fn lemma_well_formed_decodes(text: Seq<char>, e: Seq<(Seq<char>, FieldModel)>)
    requires
        parsed_object(text) == Some(e),
        forall|f: Field| conforms(e, f),
    ensures
        decode_text_spec(text) is Ok,
        ({
            let m = decode_text_spec(text)->Ok_0;
            &&& m.name == given_text(lookup(e, key_of(Field::Name)))
            &&& m.guid == given_text(lookup(e, key_of(Field::Guid)))
            &&& m.game_id == given_text(lookup(e, key_of(Field::GameId)))
            &&& lookup(e, key_of(Field::User)) == Some(FieldModel::Text(m.user))
            &&& exists|t: Seq<char>|
                lookup(e, key_of(Field::Game)) == Some(FieldModel::Number(t)) && i8_text_value(t)
                    == Some(m.game)
            &&& exists|t: Seq<char>|
                lookup(e, key_of(Field::Timestamp)) == Some(FieldModel::Number(t))
                    && unsigned_text_value(t) == Some(m.timestamp)
        }),
{
    assert(conforms(e, Field::Name));
    assert(conforms(e, Field::Game));
    assert(conforms(e, Field::Guid));
    assert(conforms(e, Field::GameId));
    assert(conforms(e, Field::User));
    assert(conforms(e, Field::Timestamp));
}

/// A text payload without a `user` field never decodes: no record with a
/// defaulted user comes out. Where the fields before it fit the schema, the
/// error names the missing user.
pub proof fn lemma_missing_user_rejected(text: Seq<char>)
    requires
        match parsed_object(text) {
            Some(e) => lookup(e, key_of(Field::User)) is None,
            None => true,
        },
    ensures
        decode_text_spec(text) is Err,
        match parsed_object(text) {
            Some(e) => (conforms(e, Field::Name) && conforms(e, Field::Game) && conforms(
                e,
                Field::Guid,
            ) && conforms(e, Field::GameId)) ==> decode_text_spec(text) == Err::<
                RecordModel,
                DecodeError,
            >(DecodeError::Missing(Field::User)),
            None => true,
        },
{
}

} // verus!
