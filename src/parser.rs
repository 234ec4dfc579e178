//! One-pass parser over the parts of a multipart upload.
//!
//! Parts arrive one at a time, in stream order, and are consumed as they come.
//! Two field names are recognised, `file` and `description`; any other part is
//! ignored. A part whose payload could not be read or decoded counts as absent.
use vstd::prelude::*;
use vstd::string::*;
use vstd::utf8::*;

verus! {

/// One part of a multipart body, as read from the stream.
/// `data` is `None` where the payload could not be read.
#[derive(Debug, Clone)]
pub struct Part {
    pub name: Option<String>,
    pub file_name: Option<String>,
    pub data: Option<Vec<u8>>,
}

/// What a complete parse yields: the file's bytes, the name it was sent under if one
/// was given, and the free-form description if one was given.
#[derive(Debug, Clone)]
pub struct UploadRequest {
    pub file_bytes: Vec<u8>,
    pub file_name: Option<String>,
    pub description: Option<String>,
}

#[derive(Debug, Clone, Copy, PartialEq, Eq, Structural)]
pub enum ParseError {
    /// No `file` part left non-empty bytes.
    NoFileProvided,
}

/// The fields gathered so far, as mathematical values.
pub struct Gathered {
    pub bytes: Seq<u8>,
    pub file_name: Option<Seq<char>>,
    pub description: Option<Seq<char>>,
}

pub open spec fn opt_view(o: Option<String>) -> Option<Seq<char>> {
    match o {
        Some(s) => Some(s@),
        None => None,
    }
}

pub open spec fn named(p: Part, n: Seq<char>) -> bool {
    p.name is Some && p.name->0@ == n
}

/// The effect of one part on what has been gathered. A `file` part with
/// non-empty bytes replaces the bytes, and the name where it carries one; a
/// `file` part whose bytes are empty leaves all as it was; a `description` part
/// whose payload is valid UTF-8 replaces the description.
pub open spec fn apply_part(g: Gathered, p: Part) -> Gathered {
    if named(p, "file"@) {
        if p.data is Some && p.data->0@.len() > 0 {
            Gathered {
                bytes: p.data->0@,
                file_name: if p.file_name is Some {
                    Some(p.file_name->0@)
                } else {
                    g.file_name
                },
                description: g.description,
            }
        } else {
            g
        }
    } else if named(p, "description"@) && p.data is Some && valid_utf8(p.data->0@) {
        Gathered { description: Some(decode_utf8(p.data->0@)), ..g }
    } else {
        g
    }
}

pub open spec fn nothing_gathered() -> Gathered {
    Gathered { bytes: Seq::empty(), file_name: None, description: None }
}

/// What a sequence of parts gathers, taken in order.
pub open spec fn gather(parts: Seq<Part>) -> Gathered
    decreases parts.len(),
{
    if parts.len() == 0 {
        nothing_gathered()
    } else {
        apply_part(gather(parts.drop_last()), parts.last())
    }
}

/// The outcome of parsing what was gathered.
pub open spec fn request_matches(r: Result<UploadRequest, ParseError>, g: Gathered) -> bool {
    if g.bytes.len() == 0 {
        r == Err::<UploadRequest, ParseError>(ParseError::NoFileProvided)
    } else {
        &&& r is Ok
        &&& r->Ok_0.file_bytes@ == g.bytes
        &&& opt_view(r->Ok_0.file_name) == g.file_name
        &&& opt_view(r->Ok_0.description) == g.description
    }
}

/// Relies on `String::from_utf8`: `Ok` exactly on valid UTF-8, holding the
/// decoded characters.
#[verifier::external_body]
fn utf8_text(b: Vec<u8>) -> (r: Option<String>)
    ensures
        r is Some <==> valid_utf8(b@),
        r is Some ==> r->0@ == decode_utf8(b@),
{
    String::from_utf8(b).ok()
}

fn has_name(p: &Part, n: &str) -> (r: bool)
    ensures
        r == named(*p, n@),
{
    match &p.name {
        Some(s) => {
            let lit = String::from_str(n);
            *s == lit
        },
        None => false,
    }
}

/// The parser's state between parts.
pub struct UploadParser {
    pub file_bytes: Vec<u8>,
    pub file_name: Option<String>,
    pub description: Option<String>,
}

impl UploadParser {
    pub open spec fn gathered(&self) -> Gathered {
        Gathered {
            bytes: self.file_bytes@,
            file_name: opt_view(self.file_name),
            description: opt_view(self.description),
        }
    }

    pub fn new() -> (r: UploadParser)
        ensures
            r.gathered() == nothing_gathered(),
    {
        UploadParser { file_bytes: Vec::new(), file_name: None, description: None }
    }

    /// Consumes the next part of the stream.
    pub fn feed(&mut self, part: Part)
        ensures
            final(self).gathered() == apply_part(old(self).gathered(), part),
    {
        proof {
            reveal_strlit("file");
            reveal_strlit("description");
        }
        let is_file = has_name(&part, "file");
        let is_description = has_name(&part, "description");
        let Part { name: _, file_name, data } = part;
        match data {
            Some(bytes) => {
                if is_file {
                    if bytes.len() == 0 {
                        return;
                    }
                    self.file_bytes = bytes;
                    if file_name.is_some() {
                        self.file_name = file_name;
                    }
                } else if is_description {
                    let text = utf8_text(bytes);
                    if text.is_some() {
                        self.description = text;
                    }
                }
            },
            None => {},
        }
    }

    /// Ends the stream: fails with `NoFileProvided` where no bytes were gathered.
    pub fn finish(self) -> (r: Result<UploadRequest, ParseError>)
        ensures
            request_matches(r, self.gathered()),
    {
        if self.file_bytes.len() == 0 {
            Err(ParseError::NoFileProvided)
        } else {
            Ok(
                UploadRequest {
                    file_bytes: self.file_bytes,
                    file_name: self.file_name,
                    description: self.description,
                },
            )
        }
    }
}

/// Parses a whole sequence of parts, in order.
pub fn parse_parts(parts: Vec<Part>) -> (r: Result<UploadRequest, ParseError>)
    ensures
        request_matches(r, gather(parts@)),
{
    let mut parser = UploadParser::new();
    let mut rest = parts;
    let ghost taken: Seq<Part> = Seq::empty();
    while rest.len() > 0
        invariant
            parts@ == taken + rest@,
            parser.gathered() == gather(taken),
        decreases rest.len(),
    {
        let part = rest.remove(0);
        proof {
            assert(taken.push(part).drop_last() == taken);
            taken = taken.push(part);
        }
        parser.feed(part);
    }
    proof {
        assert(taken == parts@);
    }
    parser.finish()
}

/// Parts among which none is named `file` gather no bytes, so parsing them
/// fails with `NoFileProvided`.
pub proof fn lemma_no_file_part_is_rejected(parts: Seq<Part>, r: Result<UploadRequest, ParseError>)
    requires
        forall|i: int| 0 <= i < parts.len() ==> !named(#[trigger] parts[i], "file"@),
        request_matches(r, gather(parts)),
    ensures
        r == Err::<UploadRequest, ParseError>(ParseError::NoFileProvided),
{
    lemma_no_file_part_gathers_nothing(parts);
}

proof fn lemma_no_file_part_gathers_nothing(parts: Seq<Part>)
    requires
        forall|i: int| 0 <= i < parts.len() ==> !named(#[trigger] parts[i], "file"@),
    ensures
        gather(parts).bytes.len() == 0,
    decreases parts.len(),
{
    if parts.len() > 0 {
        let init = parts.drop_last();
        assert forall|i: int| 0 <= i < init.len() implies !named(#[trigger] init[i], "file"@) by {
            assert(init[i] == parts[i]);
        }
        lemma_no_file_part_gathers_nothing(init);
        assert(!named(parts[parts.len() - 1], "file"@));
    }
}

} // verus!
