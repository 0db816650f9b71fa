//! Header fields.

use vstd::prelude::*;
use vstd::string::StringSliceAdditionalSpecFns;
use vstd::slice::slice_to_vec;

verus! {

/// The name of a header field.
#[derive(Clone, Copy, PartialEq, Eq, Structural, Debug)]
pub enum Header {
    ContentType,
    ContentLength,
    Location,
    Host,
    Server,
    Connection,
}

/// What a body is made of.
#[derive(Clone, Copy, PartialEq, Eq, Structural, Debug)]
pub enum ContentType {
    Text,
    HTML,
    Markdown,
    CSS,
    JS,
    JSON,
    PNG,
    JPEG,
    Binary,
}

impl Header {
    /// The name as it stands on the wire.
    pub fn as_str(&self) -> (s: &'static str)
        ensures
            s@ == self.name(),
    {
        match self {
            Header::ContentType => "Content-Type",
            Header::ContentLength => "Content-Length",
            Header::Location => "Location",
            Header::Host => "Host",
            Header::Server => "Server",
            Header::Connection => "Connection",
        }
    }

    /// The name as it stands on the wire.
    pub open spec fn name(self) -> Seq<char> {
        match self {
            Header::ContentType => "Content-Type"@,
            Header::ContentLength => "Content-Length"@,
            Header::Location => "Location"@,
            Header::Host => "Host"@,
            Header::Server => "Server"@,
            Header::Connection => "Connection"@,
        }
    }
}

impl ContentType {
    /// The media type as it stands on the wire.
    pub fn as_str(&self) -> (s: &'static str)
        ensures
            s@ == self.media_type(),
    {
        match self {
            ContentType::Text => "text/plain; charset=utf-8",
            ContentType::HTML => "text/html; charset=utf-8",
            ContentType::Markdown => "text/markdown; charset=utf-8",
            ContentType::CSS => "text/css; charset=utf-8",
            ContentType::JS => "application/javascript; charset=utf-8",
            ContentType::JSON => "application/json; charset=utf-8",
            ContentType::PNG => "image/png",
            ContentType::JPEG => "image/jpeg",
            ContentType::Binary => "application/octet-stream",
        }
    }

    /// The media type as it stands on the wire.
    pub open spec fn media_type(self) -> Seq<char> {
        match self {
            ContentType::Text => "text/plain; charset=utf-8"@,
            ContentType::HTML => "text/html; charset=utf-8"@,
            ContentType::Markdown => "text/markdown; charset=utf-8"@,
            ContentType::CSS => "text/css; charset=utf-8"@,
            ContentType::JS => "application/javascript; charset=utf-8"@,
            ContentType::JSON => "application/json; charset=utf-8"@,
            ContentType::PNG => "image/png"@,
            ContentType::JPEG => "image/jpeg"@,
            ContentType::Binary => "application/octet-stream"@,
        }
    }
}

/// The header fields of a message in the order in which they were first
/// set; no name occurs twice.
#[derive(Clone, Debug)]
pub struct HeaderMap {
    entries: Vec<(Header, Vec<u8>)>,
}

/// The position of `key` among the fields, or their number where it is not
/// among them.
pub open spec fn position(fields: Seq<(Header, Seq<u8>)>, key: Header) -> int
    decreases fields.len(),
{
    if fields.len() == 0 {
        0
    } else if fields[0].0 == key {
        0
    } else {
        1 + position(fields.drop_first(), key)
    }
}

/// The fields with `key` set to `value`: in its old place where it was set
/// before, else at the end.
pub open spec fn with_field(
    fields: Seq<(Header, Seq<u8>)>,
    key: Header,
    value: Seq<u8>,
) -> Seq<(Header, Seq<u8>)> {
    let at = position(fields, key);
    if at < fields.len() {
        fields.update(at, (key, value))
    } else {
        fields.push((key, value))
    }
}

/// No name occurs twice among the fields.
pub open spec fn distinct(fields: Seq<(Header, Seq<u8>)>) -> bool {
    forall|i: int, j: int|
        0 <= i < j < fields.len() ==> (#[trigger] fields[i]).0 != (#[trigger] fields[j]).0
}

/// The fields as they stand on the wire: for each the name, a colon and a
/// space, the value, and the end of the line.
pub open spec fn wire(fields: Seq<(Header, Seq<u8>)>) -> Seq<u8>
    decreases fields.len(),
{
    if fields.len() == 0 {
        Seq::empty()
    } else {
        wire(fields.drop_last()) + line(fields.last().0, fields.last().1)
    }
}

/// One field as it stands on the wire.
pub open spec fn line(key: Header, value: Seq<u8>) -> Seq<u8> {
    vstd::utf8::encode_utf8(key.name()) + ": ".spec_bytes() + value + "\r\n".spec_bytes()
}

/// The position of a name lies within the fields exactly when the name is
/// among them, and then it is the first place that holds it.
pub proof fn lemma_position(fields: Seq<(Header, Seq<u8>)>, key: Header)
    ensures
        0 <= position(fields, key) <= fields.len(),
        position(fields, key) < fields.len() ==> fields[position(fields, key)].0 == key,
        forall|i: int| 0 <= i < position(fields, key) ==> (#[trigger] fields[i]).0 != key,
    decreases fields.len(),
{
    if fields.len() > 0 && fields[0].0 != key {
        let rest = fields.drop_first();
        lemma_position(rest, key);
        assert forall|i: int| 0 <= i < position(fields, key) implies (#[trigger] fields[i]).0
            != key by {
            if i > 0 {
                assert(fields[i] == rest[i - 1]);
            }
        }
    }
}

/// Setting a field keeps the names distinct.
pub proof fn lemma_with_field_distinct(fields: Seq<(Header, Seq<u8>)>, key: Header, value: Seq<u8>)
    requires
        distinct(fields),
    ensures
        distinct(with_field(fields, key, value)),
{
    lemma_position(fields, key);
    let at = position(fields, key);
    let after = with_field(fields, key, value);
    assert forall|i: int, j: int| 0 <= i < j < after.len() implies (#[trigger] after[i]).0 != (
    #[trigger] after[j]).0 by {
        if at < fields.len() {
            assert(after[i].0 == fields[i].0);
            assert(after[j].0 == fields[j].0);
        } else if j == fields.len() {
            assert(after[i] == fields[i]);
        }
    }
}

impl View for HeaderMap {
    type V = Seq<(Header, Seq<u8>)>;

    closed spec fn view(&self) -> Seq<(Header, Seq<u8>)> {
        self.entries@.map_values(|e: (Header, Vec<u8>)| (e.0, e.1@))
    }
}

impl HeaderMap {
    pub fn new() -> (m: HeaderMap)
        ensures
            m@ == Seq::<(Header, Seq<u8>)>::empty(),
            distinct(m@),
    {
        let m = HeaderMap { entries: Vec::new() };
        assert(m@ =~= Seq::<(Header, Seq<u8>)>::empty());
        m
    }

    /// The place of `key` among the fields.
    fn find(&self, key: Header) -> (at: usize)
        ensures
            at == position(self@, key),
            at <= self@.len(),
    {
        let mut i: usize = 0;
        assert(self@.skip(0) =~= self@);
        while i < self.entries.len()
            invariant
                i <= self.entries.len(),
                position(self@, key) == i + position(self@.skip(i as int), key),
            decreases self.entries.len() - i,
        {
            let ghost rest = self@.skip(i as int);
            assert(rest[0] == self@[i as int]);
            assert(rest.drop_first() =~= self@.skip(i as int + 1));
            if self.entries[i].0 == key {
                return i;
            }
            i += 1;
        }
        i
    }

    /// Sets a field to the bytes of `value`.
    pub fn set(&mut self, key: Header, value: &str)
        ensures
            final(self)@ == with_field(old(self)@, key, value.spec_bytes()),
            distinct(old(self)@) ==> distinct(final(self)@),
    {
        self.set_bytes(key, value.as_bytes());
    }

    /// Sets a field: in its old place where it was set before, else at the
    /// end.
    pub fn set_bytes(&mut self, key: Header, value: &[u8])
        ensures
            final(self)@ == with_field(old(self)@, key, value@),
            distinct(old(self)@) ==> distinct(final(self)@),
    {
        proof {
            if distinct(self@) {
                lemma_with_field_distinct(self@, key, value@);
            }
        }
        let at = self.find(key);
        let bytes = slice_to_vec(value);
        if at < self.entries.len() {
            self.entries.set(at, (key, bytes));
            assert(self@ =~= with_field(old(self)@, key, value@));
        } else {
            self.entries.push((key, bytes));
            assert(self@ =~= with_field(old(self)@, key, value@));
        }
    }

    /// The value of a field, if it was set.
    pub fn get(&self, key: Header) -> (value: Option<&[u8]>)
        ensures
            match value {
                Some(v) => position(self@, key) < self@.len() && v@ == self@[position(
                    self@,
                    key,
                )].1,
                None => position(self@, key) == self@.len(),
            },
    {
        let at = self.find(key);
        if at < self.entries.len() {
            let value = self.entries[at].1.as_slice();
            assert(self@[at as int].1 == self.entries@[at as int].1@);
            assert(value@ == self@[at as int].1);
            Some(value)
        } else {
            None
        }
    }

    /// The number of fields.
    pub fn len(&self) -> (n: usize)
        ensures
            n == self@.len(),
    {
        self.entries.len()
    }

    /// The fields as they stand on the wire.
    pub fn to_bytes(&self) -> (bytes: Vec<u8>)
        ensures
            bytes@ == wire(self@),
    {
        let mut bytes: Vec<u8> = Vec::new();
        let mut i: usize = 0;
        while i < self.entries.len()
            invariant
                i <= self.entries.len(),
                bytes@ == wire(self@.take(i as int)),
            decreases self.entries.len() - i,
        {
            let ghost before = bytes@;
            bytes.extend_from_slice(self.entries[i].0.as_str().as_bytes());
            bytes.extend_from_slice(": ".as_bytes());
            bytes.extend_from_slice(self.entries[i].1.as_slice());
            bytes.extend_from_slice("\r\n".as_bytes());
            proof {
                let upto = self@.take(i as int + 1);
                assert(upto.drop_last() =~= self@.take(i as int));
                assert(upto.last() == self@[i as int]);
                assert(bytes@ =~= before + line(self@[i as int].0, self@[i as int].1));
            }
            i += 1;
        }
        assert(self@.take(self@.len() as int) =~= self@);
        bytes
    }
}

} // verus!
