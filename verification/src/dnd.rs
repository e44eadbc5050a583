//! The receiver side of the X11 drag-and-drop protocol: the per-drag state
//! machine, and the parser for the `text/uri-list` payload that carries the
//! dropped file names.
//!
//! A payload is lines separated by line feeds (a carriage return before the
//! feed is discarded); empty lines are skipped; every other line must be a
//! `file://` URI whose remainder percent-decodes to a file path, carried as
//! raw bytes.

use vstd::prelude::*;

verus! {

/// Byte values the parser inspects.
pub const BYTE_PERCENT: u8 = 37;
pub const BYTE_LF: u8 = 10;
pub const BYTE_CR: u8 = 13;
pub const BYTE_0: u8 = 48;
pub const BYTE_9: u8 = 57;
pub const BYTE_LOWER_A: u8 = 97;
pub const BYTE_LOWER_F: u8 = 102;
pub const BYTE_UPPER_A: u8 = 65;
pub const BYTE_UPPER_F: u8 = 70;
pub const BYTE_F: u8 = 102;
pub const BYTE_I: u8 = 105;
pub const BYTE_L: u8 = 108;
pub const BYTE_E: u8 = 101;
pub const BYTE_COLON: u8 = 58;
pub const BYTE_SLASH: u8 = 47;

/// Why a drag-and-drop payload was rejected.
#[derive(Debug, Clone, Copy, PartialEq, Eq, Structural)]
pub enum DndParseError {
    /// A nonempty line does not carry a `file://` URI.
    NotAFileUri,
    /// A percent escape is truncated or not hexadecimal.
    BadEscape,
}

/// The value of a hexadecimal digit.
pub open spec fn hex_val(b: u8) -> Option<u8> {
    if BYTE_0 <= b && b <= BYTE_9 {
        Some((b - BYTE_0) as u8)
    } else if BYTE_LOWER_A <= b && b <= BYTE_LOWER_F {
        Some((b - BYTE_LOWER_A + 10) as u8)
    } else if BYTE_UPPER_A <= b && b <= BYTE_UPPER_F {
        Some((b - BYTE_UPPER_A + 10) as u8)
    } else {
        None
    }
}

/// Percent-decoding of a byte string: `%XX` stands for the byte `XX`
/// hexadecimal, any other byte stands for itself.
pub open spec fn percent_decode_spec(s: Seq<u8>) -> Option<Seq<u8>>
    decreases s.len(),
{
    if s.len() == 0 {
        Some(Seq::empty())
    } else if s[0] == BYTE_PERCENT {
        if s.len() >= 3 {
            match (hex_val(s[1]), hex_val(s[2])) {
                (Some(hi), Some(lo)) => match percent_decode_spec(s.skip(3)) {
                    Some(rest) => Some(seq![(hi * 16 + lo) as u8] + rest),
                    None => None,
                },
                _ => None,
            }
        } else {
            None
        }
    } else {
        match percent_decode_spec(s.skip(1)) {
            Some(rest) => Some(seq![s[0]] + rest),
            None => None,
        }
    }
}

/// The index of the first line feed.
pub open spec fn find_nl(s: Seq<u8>) -> Option<int>
    decreases s.len(),
{
    if s.len() == 0 {
        None
    } else if s[0] == BYTE_LF {
        Some(0int)
    } else {
        match find_nl(s.drop_first()) {
            Some(i) => Some(i + 1),
            None => None,
        }
    }
}

/// A line with one trailing carriage return discarded.
pub open spec fn trim_cr(line: Seq<u8>) -> Seq<u8> {
    if line.len() > 0 && line.last() == BYTE_CR {
        line.drop_last()
    } else {
        line
    }
}

/// The `file://` prefix of a URI line.
pub open spec fn file_scheme() -> Seq<u8> {
    seq![BYTE_F, BYTE_I, BYTE_L, BYTE_E, BYTE_COLON, BYTE_SLASH, BYTE_SLASH]
}

/// A found line feed lies inside the string.
pub proof fn lemma_find_nl_bounds(s: Seq<u8>)
    ensures
        find_nl(s) matches Some(i) ==> 0 <= i < s.len(),
    decreases s.len(),
{
    if s.len() > 0 && s[0] != BYTE_LF {
        lemma_find_nl_bounds(s.drop_first());
    }
}

/// The paths of a `text/uri-list` payload, line by line.
pub open spec fn parse_uri_list_spec(s: Seq<u8>) -> Option<Seq<Seq<u8>>>
    decreases s.len(),
    via parse_uri_list_spec_decreases
{
    if s.len() == 0 {
        Some(Seq::empty())
    } else {
        let (line, rest) = match find_nl(s) {
            Some(i) => (s.take(i), s.skip(i + 1)),
            None => (s, Seq::<u8>::empty()),
        };
        let trimmed = trim_cr(line);
        if trimmed.len() == 0 {
            parse_uri_list_spec(rest)
        } else if trimmed.len() >= 7 && trimmed.take(7) == file_scheme() {
            match percent_decode_spec(trimmed.skip(7)) {
                Some(path) => match parse_uri_list_spec(rest) {
                    Some(paths) => Some(seq![path] + paths),
                    None => None,
                },
                None => None,
            }
        } else {
            None
        }
    }
}

#[via_fn]
proof fn parse_uri_list_spec_decreases(s: Seq<u8>) {
    lemma_find_nl_bounds(s);
}

/// The value of a hexadecimal digit.
fn hex_val_exec(b: u8) -> (r: Option<u8>)
    ensures
        r == hex_val(b),
{
    if BYTE_0 <= b && b <= BYTE_9 {
        Some(b - BYTE_0)
    } else if BYTE_LOWER_A <= b && b <= BYTE_LOWER_F {
        Some(b - BYTE_LOWER_A + 10)
    } else if BYTE_UPPER_A <= b && b <= BYTE_UPPER_F {
        Some(b - BYTE_UPPER_A + 10)
    } else {
        None
    }
}

/// The index of the first line feed at or after `from`.
fn find_nl_from(data: &Vec<u8>, from: usize) -> (r: Option<usize>)
    requires
        from <= data@.len(),
    ensures
        match r {
            Some(i) => from <= i < data@.len() && find_nl(data@.skip(from as int)) == Some(
                i - from,
            ),
            None => find_nl(data@.skip(from as int)) is None,
        },
    decreases data@.len() - from,
{
    if from == data.len() {
        proof {
            assert(data@.skip(from as int) =~= Seq::<u8>::empty());
        }
        None
    } else if data[from] == BYTE_LF {
        Some(from)
    } else {
        proof {
            assert(data@.skip(from as int).drop_first() =~= data@.skip(from as int + 1));
        }
        find_nl_from(data, from + 1)
    }
}

/// Parses the payload from `from` on.
fn parse_uri_list_from(data: &Vec<u8>, from: usize) -> (r: Result<Vec<Vec<u8>>, DndParseError>)
    requires
        from <= data@.len(),
    ensures
        match r {
            Ok(paths) => {
                &&& parse_uri_list_spec(data@.skip(from as int)) matches Some(expected)
                &&& paths@.len() == expected.len()
                &&& forall|i: int| 0 <= i < paths@.len() ==> #[trigger] paths@[i]@ == expected[i]
            },
            Err(_) => parse_uri_list_spec(data@.skip(from as int)) is None,
        },
    decreases data@.len() - from,
{
    let ghost s = data@.skip(from as int);
    if from == data.len() {
        proof {
            assert(s =~= Seq::<u8>::empty());
        }
        Ok(Vec::new())
    } else {
        let (line_end, next) = match find_nl_from(data, from) {
            Some(i) => (i, i + 1),
            None => (data.len(), data.len()),
        };
        proof {
            match find_nl(s) {
                Some(i) => {
                    assert(s.take(i) =~= data@.subrange(from as int, line_end as int));
                    assert(s.skip(i + 1) =~= data@.skip(next as int));
                },
                None => {
                    assert(s =~= data@.subrange(from as int, line_end as int));
                    assert(data@.skip(next as int) =~= Seq::<u8>::empty());
                },
            }
        }
        // The line is data[from .. line_end]; one trailing carriage return
        // is discarded.
        let mut trimmed_end = line_end;
        if line_end > from && data[line_end - 1] == BYTE_CR {
            trimmed_end = line_end - 1;
        }
        let ghost line = data@.subrange(from as int, line_end as int);
        proof {
            assert(trim_cr(line) =~= data@.subrange(from as int, trimmed_end as int));
        }
        if trimmed_end == from {
            parse_uri_list_from(data, next)
        } else if trimmed_end - from >= 7 && data[from] == BYTE_F && data[from + 1] == BYTE_I
            && data[from + 2] == BYTE_L && data[from + 3] == BYTE_E && data[from + 4] == BYTE_COLON
            && data[from + 5] == BYTE_SLASH && data[from + 6] == BYTE_SLASH {
            proof {
                assert(trim_cr(line).take(7) =~= file_scheme());
            }
            // Decode the path bytes after the scheme; a line feed cannot
            // occur in them, so decoding the suffix of the whole payload up
            // to the line end equals decoding the line's suffix.
            let path = percent_decode_range(data, from + 7, trimmed_end);
            proof {
                assert(trim_cr(line).skip(7) =~= data@.subrange(from as int + 7, trimmed_end as int));
            }
            match path {
                Some(p) => match parse_uri_list_from(data, next) {
                    Ok(mut paths) => {
                        let mut out: Vec<Vec<u8>> = Vec::new();
                        out.push(p);
                        out.append(&mut paths);
                        Ok(out)
                    },
                    Err(e) => Err(e),
                },
                None => Err(DndParseError::BadEscape),
            }
        } else {
            proof {
                let t = trim_cr(line);
                if t.len() >= 7 && t.take(7) == file_scheme() {
                    assert(t[0] == data@[from as int]);
                    assert(t[1] == data@[from as int + 1]);
                    assert(t[2] == data@[from as int + 2]);
                    assert(t[3] == data@[from as int + 3]);
                    assert(t[4] == data@[from as int + 4]);
                    assert(t[5] == data@[from as int + 5]);
                    assert(t[6] == data@[from as int + 6]);
                    assert(t.take(7)[0] == t[0]);
                    assert(t.take(7)[1] == t[1]);
                    assert(t.take(7)[2] == t[2]);
                    assert(t.take(7)[3] == t[3]);
                    assert(t.take(7)[4] == t[4]);
                    assert(t.take(7)[5] == t[5]);
                    assert(t.take(7)[6] == t[6]);
                    assert(false);
                }
            }
            Err(DndParseError::NotAFileUri)
        }
    }
}

/// Percent-decodes `data[from..to]`.
fn percent_decode_range(data: &Vec<u8>, from: usize, to: usize) -> (r: Option<Vec<u8>>)
    requires
        from <= to <= data@.len(),
    ensures
        match r {
            Some(out) => percent_decode_spec(data@.subrange(from as int, to as int)) == Some(out@),
            None => percent_decode_spec(data@.subrange(from as int, to as int)) is None,
        },
    decreases to - from,
{
    let ghost s = data@.subrange(from as int, to as int);
    if from == to {
        proof {
            assert(s =~= Seq::<u8>::empty());
        }
        Some(Vec::new())
    } else if data[from] == BYTE_PERCENT {
        if to - from > 2 {
            let hi = hex_val_exec(data[from + 1]);
            let lo = hex_val_exec(data[from + 2]);
            proof {
                assert(s[1] == data@[from + 1]);
                assert(s[2] == data@[from + 2]);
            }
            match (hi, lo) {
                (Some(h), Some(l)) => {
                    proof {
                        assert(s.skip(3) =~= data@.subrange(from as int + 3, to as int));
                    }
                    match percent_decode_range(data, from + 3, to) {
                        Some(mut rest) => {
                            let mut out: Vec<u8> = Vec::new();
                            out.push(h * 16 + l);
                            out.append(&mut rest);
                            proof {
                                assert(out@ =~= seq![(h * 16 + l) as u8] + percent_decode_spec(
                                    s.skip(3),
                                ).unwrap());
                            }
                            Some(out)
                        },
                        None => None,
                    }
                },
                _ => None,
            }
        } else {
            proof {
                assert(s.len() < 3);
            }
            None
        }
    } else {
        proof {
            assert(s.skip(1) =~= data@.subrange(from as int + 1, to as int));
        }
        match percent_decode_range(data, from + 1, to) {
            Some(mut rest) => {
                let mut out: Vec<u8> = Vec::new();
                out.push(data[from]);
                out.append(&mut rest);
                proof {
                    assert(out@ =~= seq![s[0]] + percent_decode_spec(s.skip(1)).unwrap());
                }
                Some(out)
            },
            None => None,
        }
    }
}

/// Parses a whole `text/uri-list` payload into its file paths.
pub fn parse_uri_list(data: &Vec<u8>) -> (r: Result<Vec<Vec<u8>>, DndParseError>)
    ensures
        match r {
            Ok(paths) => {
                &&& parse_uri_list_spec(data@) matches Some(expected)
                &&& paths@.len() == expected.len()
                &&& forall|i: int| 0 <= i < paths@.len() ==> #[trigger] paths@[i]@ == expected[i]
            },
            Err(_) => parse_uri_list_spec(data@) is None,
        },
{
    proof {
        assert(data@.skip(0) =~= data@);
    }
    parse_uri_list_from(data, 0)
}

/// A fresh copy of a byte string.
pub fn copy_bytes(v: &Vec<u8>) -> (r: Vec<u8>)
    ensures
        r@ == v@,
{
    let mut out: Vec<u8> = Vec::new();
    let n = v.len();
    let mut k: usize = 0;
    while k < n
        invariant
            n == v@.len(),
            0 <= k <= n,
            out@ =~= v@.take(k as int),
        decreases n - k,
    {
        out.push(v[k]);
        proof {
            assert(out@ =~= v@.take(k as int + 1));
        }
        k = k + 1;
    }
    proof {
        assert(v@.take(n as int) =~= v@);
    }
    out
}

/// An operation the drag-and-drop state machine asks the embedding program
/// to perform on the platform.
#[derive(Debug, Clone, Copy, PartialEq, Eq, Structural)]
pub enum DndAction {
    /// Answer the source's position message: whether the drop is accepted.
    SendStatus { target: u64, source: u64, accepted: bool },
    /// Ask the server for the drag's payload; it comes back as a selection
    /// notification.
    ConvertSelection { window: u64, time: u64 },
    /// Close the exchange after the drop.
    SendFinished { target: u64, source: u64, accepted: bool },
}

/// The receiver-side state of one drag, reset on every transition out.
#[derive(Debug)]
pub struct Dnd {
    /// The protocol version the source announced.
    pub version: Option<i64>,
    /// The data types the source offers, as atoms.
    pub type_list: Option<Vec<u64>>,
    /// The source window, once a position message has been accepted.
    pub source_window: Option<u64>,
    /// The parsed payload, once the selection notification has arrived.
    pub result: Option<Result<Vec<Vec<u8>>, DndParseError>>,
}

impl Dnd {
    /// No drag in progress.
    pub fn new() -> (r: Dnd)
        ensures
            r.version is None,
            r.type_list is None,
            r.source_window is None,
            r.result is None,
    {
        Dnd { version: None, type_list: None, source_window: None, result: None }
    }

    /// Forgets the drag in progress.
    pub fn reset(&mut self)
        ensures
            final(self).version is None,
            final(self).type_list is None,
            final(self).source_window is None,
            final(self).result is None,
    {
        self.version = None;
        self.type_list = None;
        self.source_window = None;
        self.result = None;
    }

    /// A drag entered the window: record the protocol version from the top
    /// byte of the flags word, and the offered types — the three inline
    /// atoms, or the source's type-list property when the flags' low bit
    /// says there are more.
    pub fn on_enter(&mut self, flags: i64, inline_types: Vec<u64>, property_types: Vec<u64>)
        ensures
            final(self).version == Some(flags >> 24),
            final(self).type_list == if flags & 1 == 1 {
                Some(property_types)
            } else {
                Some(inline_types)
            },
            final(self).source_window == old(self).source_window,
            final(self).result == old(self).result,
    {
        self.version = Some(flags >> 24);
        if flags & 1 == 1 {
            self.type_list = Some(property_types);
        } else {
            self.type_list = Some(inline_types);
        }
    }

    /// Whether the offered types include the given atom.
    pub fn offers(&self, atom: u64) -> (r: bool)
        ensures
            r == (self.type_list matches Some(types) && types@.contains(atom)),
    {
        match &self.type_list {
            Some(types) => {
                let n = types.len();
                let mut k: usize = 0;
                while k < n
                    invariant
                        self.type_list == Some(*types),
                        n == types@.len(),
                        0 <= k <= n,
                        forall|j: int| 0 <= j < k ==> #[trigger] types@[j] != atom,
                    decreases n - k,
                {
                    if types[k] == atom {
                        proof {
                            assert(types@.contains(atom)) by {
                                assert(types@[k as int] == atom);
                            }
                        }
                        return true;
                    }
                    k = k + 1;
                }
                false
            },
            None => false,
        }
    }

    /// The drag moved over the window. If a file list is offered, the drop
    /// is accepted: the source is recorded, the payload is requested once,
    /// and an accepting status goes back. Anything else is turned down and
    /// the drag forgotten.
    pub fn on_position(&mut self, window: u64, source: u64, time: u64, uri_list_atom: u64) -> (actions: Vec<DndAction>)
        ensures
            ({
                let accepted = match old(self).type_list {
                    Some(types) => types@.contains(uri_list_atom),
                    None => false,
                };
                let version = match old(self).version {
                    Some(v) => v,
                    None => 5,
                };
                if accepted {
                    &&& final(self).source_window == Some(source)
                    &&& final(self).version == old(self).version
                    &&& final(self).type_list == old(self).type_list
                    &&& final(self).result == old(self).result
                    &&& actions@ == if old(self).result is None {
                        seq![
                            DndAction::ConvertSelection {
                                window,
                                time: if version >= 1 { time } else { 0u64 },
                            },
                            DndAction::SendStatus { target: window, source, accepted: true },
                        ]
                    } else {
                        seq![DndAction::SendStatus { target: window, source, accepted: true }]
                    }
                } else {
                    &&& final(self).version is None
                    &&& final(self).type_list is None
                    &&& final(self).source_window is None
                    &&& final(self).result is None
                    &&& actions@ == seq![
                        DndAction::SendStatus { target: window, source, accepted: false },
                        DndAction::SendFinished { target: window, source, accepted: false },
                    ]
                }
            }),
    {
        let mut actions: Vec<DndAction> = Vec::new();
        let accepted = self.offers(uri_list_atom);
        if accepted {
            self.source_window = Some(source);
            if self.result.is_none() {
                let version = match self.version {
                    Some(v) => v,
                    None => 5,
                };
                actions.push(DndAction::ConvertSelection {
                    window,
                    time: if version >= 1 { time } else { 0 },
                });
            }
            actions.push(DndAction::SendStatus { target: window, source, accepted: true });
        } else {
            actions.push(DndAction::SendStatus { target: window, source, accepted: false });
            actions.push(DndAction::SendFinished { target: window, source, accepted: false });
            self.reset();
        }
        actions
    }

    /// The payload arrived (or its read failed). The parse outcome is
    /// recorded, and the hovered paths are returned for delivery.
    pub fn on_selection_notify(&mut self, data: Option<&Vec<u8>>) -> (paths: Vec<Vec<u8>>)
        ensures
            final(self).version == old(self).version,
            final(self).type_list == old(self).type_list,
            final(self).source_window == old(self).source_window,
            match data {
                None => final(self).result == old(self).result && paths@.len() == 0,
                Some(bytes) => match parse_uri_list_spec(bytes@) {
                    Some(expected) => {
                        &&& final(self).result matches Some(Ok(stored))
                        &&& stored@.len() == expected.len()
                        &&& forall|i: int| 0 <= i < expected.len() ==> #[trigger] stored@[i]@ == expected[i]
                        &&& paths@.len() == expected.len()
                        &&& forall|i: int| 0 <= i < expected.len() ==> #[trigger] paths@[i]@ == expected[i]
                    },
                    None => final(self).result matches Some(Err(_)) && paths@.len() == 0,
                },
            },
    {
        match data {
            None => Vec::new(),
            Some(bytes) => match parse_uri_list(bytes) {
                Ok(parsed) => {
                    let mut paths: Vec<Vec<u8>> = Vec::new();
                    let n = parsed.len();
                    let mut k: usize = 0;
                    while k < n
                        invariant
                            n == parsed@.len(),
                            0 <= k <= n,
                            paths@.len() == k,
                            forall|i: int| 0 <= i < k ==> #[trigger] paths@[i]@ == parsed@[i]@,
                        decreases n - k,
                    {
                        paths.push(copy_bytes(&parsed[k]));
                        k = k + 1;
                    }
                    self.result = Some(Ok(parsed));
                    paths
                },
                Err(e) => {
                    self.result = Some(Err(e));
                    Vec::new()
                },
            },
        }
    }

    /// The source dropped. If the window had accepted, the parsed paths are
    /// returned for delivery and the exchange is closed as accepted; either
    /// way the drag is forgotten.
    pub fn on_drop(&mut self, window: u64) -> (r: (Vec<Vec<u8>>, Vec<DndAction>))
        ensures
            final(self).version is None,
            final(self).type_list is None,
            final(self).source_window is None,
            final(self).result is None,
            match old(self).source_window {
                Some(source) => {
                    &&& r.1@ == seq![DndAction::SendFinished { target: window, source, accepted: true }]
                    &&& match old(self).result {
                        Some(Ok(stored)) => r.0@.len() == stored@.len() && forall|i: int|
                            0 <= i < stored@.len() ==> #[trigger] r.0@[i]@ == stored@[i]@,
                        _ => r.0@.len() == 0,
                    }
                },
                None => r.0@.len() == 0 && r.1@.len() == 0,
            },
    {
        let mut paths: Vec<Vec<u8>> = Vec::new();
        let mut actions: Vec<DndAction> = Vec::new();
        if let Some(source) = self.source_window {
            if let Some(Ok(stored)) = &self.result {
                let n = stored.len();
                let mut k: usize = 0;
                while k < n
                    invariant
                        n == stored@.len(),
                        0 <= k <= n,
                        paths@.len() == k,
                        forall|i: int| 0 <= i < k ==> #[trigger] paths@[i]@ == stored@[i]@,
                    decreases n - k,
                {
                    paths.push(copy_bytes(&stored[k]));
                    k = k + 1;
                }
            }
            actions.push(DndAction::SendFinished { target: window, source, accepted: true });
        }
        self.reset();
        (paths, actions)
    }
}

} // verus!
