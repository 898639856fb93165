use crate::command::{Command, Reply, Response};
use crate::error::{ErrorKind, RedisError};
use crate::store::RedisDB;
use bytes::Bytes;
use mini_redis::Command as ParsedCommand;
use mini_redis::Frame;
use vstd::prelude::*;
use vstd::utf8::{decode_utf8, valid_utf8};

verus! {

#[verifier::external_type_specification]
#[verifier::external_body]
pub struct ExBytes(Bytes);

#[verifier::external_type_specification]
pub struct ExFrame(Frame);

#[verifier::external_type_specification]
pub struct ExParsedCommand(ParsedCommand);

#[verifier::external_type_specification]
#[verifier::external_body]
pub struct ExGet(mini_redis::cmd::Get);

#[verifier::external_type_specification]
#[verifier::external_body]
pub struct ExSet(mini_redis::cmd::Set);

#[verifier::external_type_specification]
#[verifier::external_body]
pub struct ExPublish(mini_redis::cmd::Publish);

#[verifier::external_type_specification]
#[verifier::external_body]
pub struct ExSubscribe(mini_redis::cmd::Subscribe);

#[verifier::external_type_specification]
#[verifier::external_body]
pub struct ExUnsubscribe(mini_redis::cmd::Unsubscribe);

#[verifier::external_type_specification]
#[verifier::external_body]
pub struct ExUnknown(mini_redis::cmd::Unknown);

/// The bytes that a `Bytes` buffer holds.
pub uninterp spec fn bytes_content(b: Bytes) -> Seq<u8>;

/// The key of a parsed GET.
pub uninterp spec fn get_key(g: mini_redis::cmd::Get) -> Seq<char>;

/// The key of a parsed SET.
pub uninterp spec fn set_key(s: mini_redis::cmd::Set) -> Seq<char>;

/// The value bytes of a parsed SET.
pub uninterp spec fn set_value(s: mini_redis::cmd::Set) -> Seq<u8>;

/// What parsing a frame as a command can give: a failure with its message,
/// a GET, a SET, or another command.
pub enum ParseOutcome {
    Malformed(Seq<char>),
    GetCommand,
    SetCommand,
    OtherCommand,
}

/// What parsing `f` as a command gives.
pub uninterp spec fn parse_outcome(f: Frame) -> ParseOutcome;

/// The `Debug` text of a parsed command.
pub uninterp spec fn debug_text(c: ParsedCommand) -> Seq<char>;

/// Relies on mini_redis's `Get::key`: the key that was parsed.
pub assume_specification[ mini_redis::cmd::Get::key ](g: &mini_redis::cmd::Get) -> (r: &str)
    ensures
        r@ == get_key(*g),
;

/// Relies on mini_redis's `Set::key`: the key that was parsed.
pub assume_specification[ mini_redis::cmd::Set::key ](s: &mini_redis::cmd::Set) -> (r: &str)
    ensures
        r@ == set_key(*s),
;

/// Relies on mini_redis's `Set::value`: the value that was parsed.
pub assume_specification[ mini_redis::cmd::Set::value ](s: &mini_redis::cmd::Set) -> (r: &Bytes)
    ensures
        bytes_content(*r) == set_value(*s),
;

/// `b` with each ASCII upper-case letter turned to lower case.
pub open spec fn ascii_lower(b: Seq<u8>) -> Seq<u8> {
    Seq::new(b.len(), |i: int| if 65 <= b[i] <= 90 { (b[i] + 32) as u8 } else { b[i] })
}

/// `f` is a bulk string naming the lower-case command `name`, in any ASCII
/// case.
pub open spec fn is_name(f: Frame, name: Seq<u8>) -> bool {
    f matches Frame::Bulk(x) && ascii_lower(bytes_content(x)) == name
}

/// `f` is a bulk string holding exactly the bytes `b`.
pub open spec fn is_bulk(f: Frame, b: Seq<u8>) -> bool {
    f matches Frame::Bulk(x) && bytes_content(x) == b
}

/// The bytes of the lower-case command name `get`.
pub open spec fn get_word() -> Seq<u8> {
    seq![103u8, 101u8, 116u8]
}

/// The bytes of the lower-case command name `set`.
pub open spec fn set_word() -> Seq<u8> {
    seq![115u8, 101u8, 116u8]
}

/// `f` is a bulk string whose bytes are valid UTF-8.
pub open spec fn is_text(f: Frame) -> bool {
    f matches Frame::Bulk(x) && valid_utf8(bytes_content(x))
}

/// `f` is the request `get key`, as an array of bulk strings.
pub open spec fn is_get_request(f: Frame) -> bool {
    f matches Frame::Array(parts) && parts.len() == 2 && is_name(parts[0], get_word()) && is_text(
        parts[1],
    )
}

/// `f` is the request `set key value`, as an array of bulk strings.
pub open spec fn is_set_request(f: Frame) -> bool {
    f matches Frame::Array(parts) && parts.len() == 3 && is_name(parts[0], set_word()) && is_text(
        parts[1],
    ) && parts[2] is Bulk
}

/// The key of a request: the text of its second part.
pub open spec fn request_key(f: Frame) -> Seq<char> {
    match f {
        Frame::Array(parts) => if parts.len() >= 2 {
            match parts[1] {
                Frame::Bulk(b) => decode_utf8(bytes_content(b)),
                _ => Seq::empty(),
            }
        } else {
            Seq::empty()
        },
        _ => Seq::empty(),
    }
}

/// The value of a request: the bytes of its third part.
pub open spec fn request_value(f: Frame) -> Seq<u8> {
    match f {
        Frame::Array(parts) => if parts.len() >= 3 {
            match parts[2] {
                Frame::Bulk(b) => bytes_content(b),
                _ => Seq::empty(),
            }
        } else {
            Seq::empty()
        },
        _ => Seq::empty(),
    }
}

/// `b` is a word of ASCII letters which, in lower case, names none of the
/// commands mini_redis parses (get, publish, set, subscribe, unsubscribe).
pub open spec fn is_unknown_word(b: Seq<u8>) -> bool {
    let w = ascii_lower(b);
    &&& b.len() >= 1
    &&& forall|i: int| 0 <= i < w.len() ==> 97 <= #[trigger] w[i] <= 122
    &&& w != get_word()
    &&& w != set_word()
    &&& w != seq![112u8, 117u8, 98u8, 108u8, 105u8, 115u8, 104u8]
    &&& w != seq![115u8, 117u8, 98u8, 115u8, 99u8, 114u8, 105u8, 98u8, 101u8]
    &&& w != seq![117u8, 110u8, 115u8, 117u8, 98u8, 115u8, 99u8, 114u8, 105u8, 98u8, 101u8]
}

/// `f` is an array whose first part is a bulk string naming a command that
/// mini_redis does not know.
pub open spec fn is_unknown_request(f: Frame) -> bool {
    f matches Frame::Array(parts) && parts.len() >= 1 && (parts[0] matches Frame::Bulk(x)
        && is_unknown_word(bytes_content(x)))
}

/// The key of a parsed GET or SET.
pub open spec fn parsed_key(r: Result<ParsedCommand, String>) -> Seq<char> {
    match r {
        Ok(ParsedCommand::Get(g)) => get_key(g),
        Ok(ParsedCommand::Set(s)) => set_key(s),
        _ => Seq::empty(),
    }
}

/// The value of a parsed SET.
pub open spec fn parsed_value(r: Result<ParsedCommand, String>) -> Seq<u8> {
    match r {
        Ok(ParsedCommand::Set(s)) => set_value(s),
        _ => Seq::empty(),
    }
}

/// Relies on `Bytes::from(Vec<u8>)`: a buffer holding the vector's bytes.
#[verifier::external_body]
fn to_bytes(v: Vec<u8>) -> (r: Bytes)
    ensures
        bytes_content(r) == v@,
{
    Bytes::from(v)
}

/// Relies on `<[u8]>::to_vec` through `Bytes`'s `Deref`: a copy of the bytes.
#[verifier::external_body]
fn bytes_to_vec(b: &Bytes) -> (r: Vec<u8>)
    ensures
        r@ == bytes_content(*b),
{
    b.to_vec()
}

/// Relies on the `Debug` form of mini_redis's `Command`, used to describe a
/// refused command; it depends on the command alone.
#[verifier::external_body]
fn describe(c: &ParsedCommand) -> (r: String)
    ensures
        r@ == debug_text(*c),
{
    format!("{:?}", c)
}

/// Relies on mini_redis's `Command::from_frame`, whose outcome depends on the
/// frame alone. Only an array parses; its first part, lower-cased, names the command and the rest are its
/// arguments (`get key`, `set key value`); an unknown name parses to
/// `Unknown` whatever follows. A failure is turned into its message.
#[verifier::external_body]
fn parse_command(frame: Frame) -> (r: Result<ParsedCommand, String>)
    ensures
        !(frame is Array) ==> (r is Err),
        r matches Err(m) ==> (parse_outcome(frame) == ParseOutcome::Malformed(m@)),
        r matches Ok(ParsedCommand::Get(_)) ==> (parse_outcome(frame) == ParseOutcome::GetCommand),
        r matches Ok(ParsedCommand::Set(_)) ==> (parse_outcome(frame) == ParseOutcome::SetCommand),
        (r is Ok && !(r matches Ok(ParsedCommand::Get(_))) && !(r matches Ok(ParsedCommand::Set(_)))) ==> (parse_outcome(frame) == ParseOutcome::OtherCommand),
        is_get_request(frame) ==> (r matches Ok(ParsedCommand::Get(_)) && parsed_key(r) == request_key(frame)),
        is_set_request(frame) ==> (r matches Ok(ParsedCommand::Set(_)) && parsed_key(r) == request_key(frame) && parsed_value(r) == request_value(frame)),
        is_unknown_request(frame) ==> (r matches Ok(ParsedCommand::Unknown(_))),
{
    match ParsedCommand::from_frame(frame) {
        Ok(c) => Ok(c),
        Err(e) => Err(e.to_string()),
    }
}

/// The library's form of a parsed command: GET and SET keep their key and
/// value, every other command is described.
pub fn classify(p: ParsedCommand) -> (c: Command)
    ensures
        p matches ParsedCommand::Get(g) ==> (c matches Command::Get { key } && key@ == get_key(g)),
        p matches ParsedCommand::Set(s) ==> (c matches Command::Put { key, value } && key@ == set_key(s)
            && value@ == set_value(s)),
        !(p is Get || p is Set) ==> (c matches Command::Other { description } && description@
            == debug_text(p)),
{
    match p {
        ParsedCommand::Get(g) => Command::Get { key: g.key().to_owned() },
        ParsedCommand::Set(s) => Command::Put { key: s.key().to_owned(), value: bytes_to_vec(s.value()) },
        other => Command::Other { description: describe(&other) },
    }
}

/// Decodes a request frame into a command. A frame that does not parse is
/// a protocol error carrying the parser's message.
pub fn decode_frame(frame: Frame) -> (r: Result<Command, RedisError>)
    ensures
        !(frame is Array) ==> r is Err,
        parse_outcome(frame) is Malformed <==> r is Err,
        r matches Err(e) ==> (e.kind == ErrorKind::Protocol && parse_outcome(frame)
            == ParseOutcome::Malformed(e.info@)),
        parse_outcome(frame) == ParseOutcome::GetCommand ==> r matches Ok(Command::Get { .. }),
        parse_outcome(frame) == ParseOutcome::SetCommand ==> r matches Ok(Command::Put { .. }),
        parse_outcome(frame) == ParseOutcome::OtherCommand ==> r matches Ok(Command::Other { .. }),
        is_get_request(frame) ==> (r matches Ok(Command::Get { key }) && key@ == request_key(frame)),
        is_set_request(frame) ==> (r matches Ok(Command::Put { key, value })
            && key@ == request_key(frame) && value@ == request_value(frame)),
        is_unknown_request(frame) ==> r matches Ok(Command::Other { .. }),
{
    match parse_command(frame) {
        Ok(p) => Ok(classify(p)),
        Err(info) => Err(RedisError::new(info.as_str())),
    }
}

/// The response frame for an answer: a bulk string for a value, a null for
/// an absent key, and the simple string `OK` for a stored value.
pub fn encode_response(resp: Response) -> (f: Frame)
    ensures
        match resp@ {
            Reply::Value(v) => f matches Frame::Bulk(b) && bytes_content(b) == v,
            Reply::Absent => f == Frame::Null,
            Reply::Acknowledged => f matches Frame::Simple(s) && s@ == "OK"@,
        },
{
    match resp {
        Response::Value(v) => Frame::Bulk(to_bytes(v)),
        Response::Absent => Frame::Null,
        Response::Acknowledged => Frame::Simple("OK".to_owned()),
    }
}

impl RedisDB {
    /// Decodes a request frame, carries it out, and encodes the answer.
    pub fn dispatch(&self, frame: Frame) -> (r: Result<Frame, RedisError>)
        ensures
            r matches Ok(f) ==> (f matches Frame::Bulk(_) || f == Frame::Null || (f matches Frame::Simple(
                s,
            ) && s@ == "OK"@)),
            r matches Err(e) ==> e.kind != ErrorKind::Construction,
            !(frame is Array) ==> (r matches Err(e) && e.kind == ErrorKind::Protocol),
            parse_outcome(frame) matches ParseOutcome::Malformed(m) ==> (r matches Err(e) && e.kind
                == ErrorKind::Protocol && e.info@ == m),
            r matches Err(e) ==> (e.kind == ErrorKind::Protocol ==> parse_outcome(frame)
                == ParseOutcome::Malformed(e.info@)),
            parse_outcome(frame) == ParseOutcome::OtherCommand ==> (r matches Err(e) && e.kind
                == ErrorKind::UnsupportedCommand && e.info@.len() >= 13 && e.info@.subrange(0, 13)
                == "invalid cmd: "@),
            r matches Err(e) ==> (e.kind == ErrorKind::UnsupportedCommand ==> parse_outcome(frame)
                == ParseOutcome::OtherCommand),
            is_unknown_request(frame) ==> (r matches Err(e) && e.kind == ErrorKind::UnsupportedCommand),
            parse_outcome(frame) == ParseOutcome::GetCommand ==> ((r matches Ok(f) ==> (f is Bulk
                || f is Null)) && (r matches Err(e) ==> e.kind == ErrorKind::ExclusionPoisoned)),
            parse_outcome(frame) == ParseOutcome::SetCommand ==> ((r matches Ok(f) ==> (f matches Frame::Simple(s)
                && s@ == "OK"@)) && (r matches Err(e) ==> e.kind == ErrorKind::ExclusionPoisoned)),
            is_get_request(frame) ==> ((r matches Ok(f) ==> (f is Bulk || f is Null)) && (r matches Err(e)
                ==> e.kind == ErrorKind::ExclusionPoisoned)),
            is_set_request(frame) ==> ((r matches Ok(f) ==> (f matches Frame::Simple(s) && s@ == "OK"@))
                && (r matches Err(e) ==> e.kind == ErrorKind::ExclusionPoisoned)),
    {
        let cmd = match decode_frame(frame) {
            Ok(cmd) => cmd,
            Err(e) => return Err(e),
        };
        match self.execute(cmd) {
            Ok(resp) => Ok(encode_response(resp)),
            Err(e) => Err(e),
        }
    }
}

} // verus!
