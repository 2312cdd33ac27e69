//! Options to apply to the TCP socket involved in the tunneling, and the order in which
//! they are applied.

use vstd::prelude::*;
use crate::delay::{Delay, NANOS_PER_SEC};
use std::num::ParseIntError;

verus! {

/// Options to apply to the TCP socket involved in the tunneling.
#[derive(Debug, Clone)]
#[non_exhaustive]
pub struct TcpOptions {
    /// If given, sets the SO_RCVBUF option on the TCP socket to the given number of bytes.
    /// Changes the size of the operating system's receive buffer associated with the socket.
    pub recv_buffer_size: Option<u32>,
    /// If given, sets the SO_SNDBUF option on the TCP socket to the given number of bytes.
    /// Changes the size of the operating system's send buffer associated with the socket.
    pub send_buffer_size: Option<u32>,
    /// An application timeout on receiving data from the TCP socket.
    pub recv_timeout: Option<Delay>,
    /// If given, sets the SO_MARK option on the TCP socket.
    /// This exists only on Linux; elsewhere it is not applied.
    pub fwmark: Option<u32>,
    /// Enables TCP_NODELAY on the TCP socket.
    pub nodelay: bool,
}

impl Default for TcpOptions {
    /// No socket option is changed, no receive timeout, Nagle's algorithm left on.
    fn default() -> (options: Self)
        ensures
            options.recv_buffer_size is None,
            options.send_buffer_size is None,
            options.recv_timeout is None,
            options.fwmark is None,
            !options.nodelay,
    {
        TcpOptions {
            recv_buffer_size: None,
            send_buffer_size: None,
            recv_timeout: None,
            fwmark: None,
            nodelay: false,
        }
    }
}

/// Which socket option failed to be read or written.
#[derive(Debug, Copy, Clone, PartialEq, Eq)]
#[non_exhaustive]
pub enum ApplyTcpOptionsErrorKind {
    /// Failed to get/set TCP_RCVBUF
    RecvBuffer,
    /// Failed to get/set TCP_SNDBUF
    SendBuffer,
    /// Failed to get/set SO_MARK
    Mark,
    /// Failed to get/set TCP_NODELAY
    TcpNoDelay,
}

/// The message that describes a failure of the given kind.
pub open spec fn error_kind_message(kind: ApplyTcpOptionsErrorKind) -> Seq<char> {
    match kind {
        ApplyTcpOptionsErrorKind::RecvBuffer => "Failed to get/set TCP_RCVBUF"@,
        ApplyTcpOptionsErrorKind::SendBuffer => "Failed to get/set TCP_SNDBUF"@,
        ApplyTcpOptionsErrorKind::Mark => "Failed to get/set SO_MARK"@,
        ApplyTcpOptionsErrorKind::TcpNoDelay => "Failed to get/set TCP_NODELAY"@,
    }
}

impl ApplyTcpOptionsErrorKind {
    /// The message that describes a failure of this kind.
    pub fn message(&self) -> (message: &'static str)
        ensures
            message@ == error_kind_message(*self),
    {
        match self {
            ApplyTcpOptionsErrorKind::RecvBuffer => "Failed to get/set TCP_RCVBUF",
            ApplyTcpOptionsErrorKind::SendBuffer => "Failed to get/set TCP_SNDBUF",
            ApplyTcpOptionsErrorKind::Mark => "Failed to get/set SO_MARK",
            ApplyTcpOptionsErrorKind::TcpNoDelay => "Failed to get/set TCP_NODELAY",
        }
    }
}

/// Represents a failure to apply socket options to the TCP socket: which option failed,
/// and the description of the underlying error.
#[derive(Debug)]
pub struct ApplyTcpOptionsError {
    source: String,
    kind: ApplyTcpOptionsErrorKind,
}

impl ApplyTcpOptionsError {
    /// A failure of the given kind, caused by the error that `source` describes.
    pub fn new(kind: ApplyTcpOptionsErrorKind, source: String) -> (error: Self)
        ensures
            error.kind() == kind,
            error.source()@ == source@,
    {
        Self { source, kind }
    }

    /// Which option failed.
    pub closed spec fn kind(&self) -> ApplyTcpOptionsErrorKind {
        self.kind
    }

    /// The description of the underlying error.
    pub closed spec fn source(&self) -> String {
        self.source
    }

    /// Which option failed.
    pub fn error_kind(&self) -> (kind: ApplyTcpOptionsErrorKind)
        ensures
            kind == self.kind(),
    {
        self.kind
    }

    /// The description of the underlying error.
    pub fn source_description(&self) -> (source: &str)
        ensures
            source@ == self.source()@,
    {
        self.source.as_str()
    }

    /// The message that describes this failure (without its source).
    pub fn message(&self) -> (message: &'static str)
        ensures
            message@ == error_kind_message(self.kind()),
    {
        self.kind.message()
    }
}

/// One read or write of a socket option.
#[derive(Debug, Clone, Copy, PartialEq, Eq)]
pub enum SocketOptionOp {
    /// Set SO_RCVBUF to the given number of bytes.
    SetRecvBufferSize(u32),
    /// Read SO_RCVBUF back.
    GetRecvBufferSize,
    /// Set SO_SNDBUF to the given number of bytes.
    SetSendBufferSize(u32),
    /// Read SO_SNDBUF back.
    GetSendBufferSize,
    /// Set SO_MARK to the given mark.
    SetMark(u32),
    /// Read SO_MARK back.
    GetMark,
    /// Turn TCP_NODELAY on or off.
    SetNoDelay(bool),
    /// Read TCP_NODELAY back.
    GetNoDelay,
}

/// The kind of error that a failure of `op` is reported as.
pub open spec fn op_error_kind(op: SocketOptionOp) -> ApplyTcpOptionsErrorKind {
    match op {
        SocketOptionOp::SetRecvBufferSize(_) | SocketOptionOp::GetRecvBufferSize =>
            ApplyTcpOptionsErrorKind::RecvBuffer,
        SocketOptionOp::SetSendBufferSize(_) | SocketOptionOp::GetSendBufferSize =>
            ApplyTcpOptionsErrorKind::SendBuffer,
        SocketOptionOp::SetMark(_) | SocketOptionOp::GetMark => ApplyTcpOptionsErrorKind::Mark,
        SocketOptionOp::SetNoDelay(_) | SocketOptionOp::GetNoDelay =>
            ApplyTcpOptionsErrorKind::TcpNoDelay,
    }
}

impl SocketOptionOp {
    /// The kind of error that a failure of this operation is reported as.
    pub fn error_kind(&self) -> (kind: ApplyTcpOptionsErrorKind)
        ensures
            kind == op_error_kind(*self),
    {
        match self {
            SocketOptionOp::SetRecvBufferSize(_) | SocketOptionOp::GetRecvBufferSize =>
                ApplyTcpOptionsErrorKind::RecvBuffer,
            SocketOptionOp::SetSendBufferSize(_) | SocketOptionOp::GetSendBufferSize =>
                ApplyTcpOptionsErrorKind::SendBuffer,
            SocketOptionOp::SetMark(_) | SocketOptionOp::GetMark => ApplyTcpOptionsErrorKind::Mark,
            SocketOptionOp::SetNoDelay(_) | SocketOptionOp::GetNoDelay =>
                ApplyTcpOptionsErrorKind::TcpNoDelay,
        }
    }
}

/// The write of an option, when the option is given.
pub open spec fn optional_set(value: Option<u32>, set: spec_fn(u32) -> SocketOptionOp) -> Seq<
    SocketOptionOp,
> {
    match value {
        Some(v) => seq![set(v)],
        None => Seq::empty(),
    }
}

/// The socket operations that applying `options` to a TCP socket performs, in order:
/// each buffer size is written when given, and then always read back; where the
/// platform has socket marks (`SO_MARK` exists only on Linux), the mark likewise.
pub open spec fn apply_ops(options: TcpOptions, socket_mark_supported: bool) -> Seq<SocketOptionOp> {
    optional_set(options.recv_buffer_size, |v: u32| SocketOptionOp::SetRecvBufferSize(v)) + seq![
        SocketOptionOp::GetRecvBufferSize,
    ] + optional_set(options.send_buffer_size, |v: u32| SocketOptionOp::SetSendBufferSize(v))
        + seq![SocketOptionOp::GetSendBufferSize] + if socket_mark_supported {
        optional_set(options.fwmark, |v: u32| SocketOptionOp::SetMark(v)) + seq![
            SocketOptionOp::GetMark,
        ]
    } else {
        Seq::empty()
    }
}

/// The socket operations that applying the given options to a TCP socket performs, in
/// order. The caller performs them one by one and stops at the first that fails,
/// reporting it as an `ApplyTcpOptionsError` of the operation's `error_kind`.
/// `socket_mark_supported` says whether the platform has `SO_MARK` (only Linux has).
pub fn apply_plan(options: &TcpOptions, socket_mark_supported: bool) -> (ops: Vec<SocketOptionOp>)
    ensures
        ops@ == apply_ops(*options, socket_mark_supported),
        // Every operation comes at most once, in this order: the receive buffer, then the
        // send buffer, then the mark, each written before it is read back.
        forall|i: int, j: int|
            0 <= i < j < ops@.len() ==> op_rank(#[trigger] ops@[i]) < op_rank(#[trigger] ops@[j]),
        // An option is written exactly when it is given, with the given value, whatever the
        // other options are.
        forall|v: u32|
            ops@.contains(SocketOptionOp::SetRecvBufferSize(v)) <==> options.recv_buffer_size
                == Some(v),
        forall|v: u32|
            ops@.contains(SocketOptionOp::SetSendBufferSize(v)) <==> options.send_buffer_size
                == Some(v),
        forall|v: u32|
            ops@.contains(SocketOptionOp::SetMark(v)) <==> (socket_mark_supported
                && options.fwmark == Some(v)),
        // Each buffer size is always read back; the mark wherever the platform has marks.
        ops@.contains(SocketOptionOp::GetRecvBufferSize),
        ops@.contains(SocketOptionOp::GetSendBufferSize),
        ops@.contains(SocketOptionOp::GetMark) <==> socket_mark_supported,
        // TCP_NODELAY is not touched here (it is set on the connected stream).
        forall|i: int|
            0 <= i < ops@.len() ==> !(#[trigger] ops@[i] is SetNoDelay) && !(ops@[i] is GetNoDelay),
{
    let mut ops: Vec<SocketOptionOp> = Vec::new();
    if let Some(size) = options.recv_buffer_size {
        ops.push(SocketOptionOp::SetRecvBufferSize(size));
    }
    ops.push(SocketOptionOp::GetRecvBufferSize);
    if let Some(size) = options.send_buffer_size {
        ops.push(SocketOptionOp::SetSendBufferSize(size));
    }
    ops.push(SocketOptionOp::GetSendBufferSize);
    if socket_mark_supported {
        if let Some(mark) = options.fwmark {
            ops.push(SocketOptionOp::SetMark(mark));
        }
        ops.push(SocketOptionOp::GetMark);
    }
    assert(ops@ =~= apply_ops(*options, socket_mark_supported));
    proof {
        lemma_apply_ops_laws(*options, socket_mark_supported);
    }
    ops
}

/// The position of an operation in the order in which options are applied.
pub open spec fn op_rank(op: SocketOptionOp) -> nat {
    match op {
        SocketOptionOp::SetRecvBufferSize(_) => 0,
        SocketOptionOp::GetRecvBufferSize => 1,
        SocketOptionOp::SetSendBufferSize(_) => 2,
        SocketOptionOp::GetSendBufferSize => 3,
        SocketOptionOp::SetMark(_) => 4,
        SocketOptionOp::GetMark => 5,
        SocketOptionOp::SetNoDelay(_) => 6,
        SocketOptionOp::GetNoDelay => 7,
    }
}

/// What applying options does, whatever the options: each option is written exactly when
/// it is given, with its value and independently of the others, and every option is read
/// back; the operations come in a fixed order, each at most once.
pub proof fn lemma_apply_ops_laws(options: TcpOptions, socket_mark_supported: bool)
    ensures
        ({
            let ops = apply_ops(options, socket_mark_supported);
            &&& forall|i: int, j: int|
                0 <= i < j < ops.len() ==> op_rank(#[trigger] ops[i]) < op_rank(#[trigger] ops[j])
            &&& forall|v: u32|
                ops.contains(SocketOptionOp::SetRecvBufferSize(v)) <==> options.recv_buffer_size
                    == Some(v)
            &&& forall|v: u32|
                ops.contains(SocketOptionOp::SetSendBufferSize(v)) <==> options.send_buffer_size
                    == Some(v)
            &&& forall|v: u32|
                ops.contains(SocketOptionOp::SetMark(v)) <==> (socket_mark_supported
                    && options.fwmark == Some(v))
            &&& ops.contains(SocketOptionOp::GetRecvBufferSize)
            &&& ops.contains(SocketOptionOp::GetSendBufferSize)
            &&& ops.contains(SocketOptionOp::GetMark) <==> socket_mark_supported
            &&& forall|i: int|
                0 <= i < ops.len() ==> !(#[trigger] ops[i] is SetNoDelay) && !(ops[i] is GetNoDelay)
        }),
{
    let recv = optional_set(options.recv_buffer_size, |v: u32| SocketOptionOp::SetRecvBufferSize(v));
    let send = optional_set(options.send_buffer_size, |v: u32| SocketOptionOp::SetSendBufferSize(v));
    let mark = optional_set(options.fwmark, |v: u32| SocketOptionOp::SetMark(v));
    let recv_part = recv + seq![SocketOptionOp::GetRecvBufferSize];
    let send_part = send + seq![SocketOptionOp::GetSendBufferSize];
    let mark_part: Seq<SocketOptionOp> = if socket_mark_supported {
        mark + seq![SocketOptionOp::GetMark]
    } else {
        Seq::empty()
    };
    let ops = apply_ops(options, socket_mark_supported);
    assert(ops =~= recv_part + send_part + mark_part);
    // Each part is in rank order and lies within its own range of ranks.
    assert forall|i: int| 0 <= i < send_part.len() implies op_rank(#[trigger] send_part[i]) == 2
        + i + 2 - send_part.len() by {}
    assert forall|i: int| 0 <= i < mark_part.len() implies op_rank(#[trigger] mark_part[i]) == 4
        + i + 2 - mark_part.len() by {}
    assert forall|i: int| 0 <= i < recv_part.len() implies op_rank(#[trigger] recv_part[i]) == i
        + 2 - recv_part.len() by {}
    assert forall|i: int| 0 <= i < ops.len() implies op_rank(#[trigger] ops[i]) < 6 && (if i
        < recv_part.len() {
        op_rank(ops[i]) == i + 2 - recv_part.len()
    } else if i < recv_part.len() + send_part.len() {
        op_rank(ops[i]) == 2 + (i - recv_part.len()) + 2 - send_part.len()
    } else {
        op_rank(ops[i]) == 4 + (i - recv_part.len() - send_part.len()) + 2 - mark_part.len()
    }) by {
        if i < recv_part.len() {
            assert(ops[i] == recv_part[i]);
        } else if i < recv_part.len() + send_part.len() {
            assert(ops[i] == send_part[i - recv_part.len()]);
        } else {
            assert(ops[i] == mark_part[i - recv_part.len() - send_part.len()]);
        }
    }
    // The operations of each kind are those of their part.
    assert forall|v: u32|
        ops.contains(SocketOptionOp::SetRecvBufferSize(v)) <==> options.recv_buffer_size
            == Some(v) by {
        if options.recv_buffer_size == Some(v) {
            assert(ops[0] == SocketOptionOp::SetRecvBufferSize(v));
        }
        if ops.contains(SocketOptionOp::SetRecvBufferSize(v)) {
            let i = choose|i: int| 0 <= i < ops.len() && ops[i] == SocketOptionOp::SetRecvBufferSize(v);
            assert(op_rank(ops[i]) == 0);
            assert(recv_part[i] == ops[i]);
        }
    }
    assert forall|v: u32|
        ops.contains(SocketOptionOp::SetSendBufferSize(v)) <==> options.send_buffer_size
            == Some(v) by {
        if options.send_buffer_size == Some(v) {
            assert(ops[recv_part.len() as int] == SocketOptionOp::SetSendBufferSize(v));
        }
        if ops.contains(SocketOptionOp::SetSendBufferSize(v)) {
            let i = choose|i: int| 0 <= i < ops.len() && ops[i] == SocketOptionOp::SetSendBufferSize(v);
            assert(op_rank(ops[i]) == 2);
            assert(send_part[i - recv_part.len()] == ops[i]);
        }
    }
    assert forall|v: u32|
        ops.contains(SocketOptionOp::SetMark(v)) <==> (socket_mark_supported && options.fwmark
            == Some(v)) by {
        if socket_mark_supported && options.fwmark == Some(v) {
            assert(ops[(recv_part.len() + send_part.len()) as int] == SocketOptionOp::SetMark(v));
        }
        if ops.contains(SocketOptionOp::SetMark(v)) {
            let i = choose|i: int| 0 <= i < ops.len() && ops[i] == SocketOptionOp::SetMark(v);
            assert(op_rank(ops[i]) == 4);
            assert(mark_part[i - recv_part.len() - send_part.len()] == ops[i]);
        }
    }
    assert(ops[recv_part.len() - 1] == SocketOptionOp::GetRecvBufferSize);
    assert(ops[recv_part.len() + send_part.len() - 1] == SocketOptionOp::GetSendBufferSize);
    if socket_mark_supported {
        assert(ops[ops.len() - 1] == SocketOptionOp::GetMark);
    } else {
        if ops.contains(SocketOptionOp::GetMark) {
            let i = choose|i: int| 0 <= i < ops.len() && ops[i] == SocketOptionOp::GetMark;
            assert(op_rank(ops[i]) == 5);
        }
    }
}

/// The socket operations that configuring TCP_NODELAY on a connected stream performs,
/// in order: write the option, then read it back.
pub fn set_nodelay_plan(nodelay: bool) -> (ops: Vec<SocketOptionOp>)
    ensures
        ops@ == seq![SocketOptionOp::SetNoDelay(nodelay), SocketOptionOp::GetNoDelay],
{
    let mut ops: Vec<SocketOptionOp> = Vec::new();
    ops.push(SocketOptionOp::SetNoDelay(nodelay));
    ops.push(SocketOptionOp::GetNoDelay);
    assert(ops@ =~= seq![SocketOptionOp::SetNoDelay(nodelay), SocketOptionOp::GetNoDelay]);
    ops
}

/// The error that parsing an integer from a string fails with.
#[verifier::external_type_specification]
#[verifier::external_body]
pub struct ExParseIntError(ParseIntError);

/// `c` is one of the ASCII digits `0` to `9`.
pub open spec fn is_decimal_digit(c: char) -> bool {
    '0' <= c && c <= '9'
}

/// The number that a string of decimal digits denotes.
pub open spec fn decimal_value(digits: Seq<char>) -> nat
    decreases digits.len(),
{
    if digits.len() == 0 {
        0
    } else {
        decimal_value(digits.drop_last()) * 10 + ((digits.last() as nat) - ('0' as nat)) as nat
    }
}

/// The string without the one `+` sign that may lead it.
pub open spec fn without_plus_sign(s: Seq<char>) -> Seq<char> {
    if s.len() > 0 && s[0] == '+' {
        s.drop_first()
    } else {
        s
    }
}

/// The `u64` that `s` denotes in decimal, as the standard library reads it: an optional
/// `+` sign followed by one or more digits and nothing else, of a value that fits.
pub open spec fn parse_u64_decimal(s: Seq<char>) -> Option<u64> {
    let digits = without_plus_sign(s);
    if digits.len() > 0 && (forall|i: int| 0 <= i < digits.len() ==> is_decimal_digit(#[trigger] digits[i]))
        && decimal_value(digits) <= u64::MAX {
        Some(decimal_value(digits) as u64)
    } else {
        None
    }
}

/// What went wrong when parsing an integer (the kind of a `ParseIntError`).
#[derive(Debug, Clone, Copy, PartialEq, Eq)]
pub enum IntegerErrorKind {
    /// The string is empty.
    Empty,
    /// The string holds a character that is not a digit where a digit belongs, or is a
    /// sign alone.
    InvalidDigit,
    /// The number is too large for the target type.
    PosOverflow,
    /// The number is too small for the target type.
    NegOverflow,
    /// The number is zero where zero is not allowed.
    Zero,
    /// A kind of error that the standard library added later.
    Other,
}

/// A failure to parse a whole number of seconds: the standard library's error and its kind.
#[derive(Debug)]
pub struct ParseIntegerError {
    kind: IntegerErrorKind,
    source: ParseIntError,
}

impl ParseIntegerError {
    /// What went wrong.
    pub closed spec fn kind(&self) -> IntegerErrorKind {
        self.kind
    }

    /// What went wrong.
    pub fn error_kind(&self) -> (kind: IntegerErrorKind)
        ensures
            kind == self.kind(),
    {
        self.kind
    }

    /// The standard library's error, whose text describes the failure.
    pub fn into_source(self) -> ParseIntError {
        self.source
    }
}

/// The kinds of error that the standard library documents for parsing a `u64` from `s`:
/// an empty string, and only it, is `Empty`; a sign alone is `InvalidDigit`; digits only,
/// of a value too large, are `PosOverflow`; and a non-digit in a string of at most 19
/// characters after the sign (too short to overflow) is `InvalidDigit`.
pub open spec fn documented_u64_error_kind(s: Seq<char>, kind: IntegerErrorKind) -> bool {
    let digits = without_plus_sign(s);
    let all_digits = forall|i: int| 0 <= i < digits.len() ==> is_decimal_digit(#[trigger] digits[i]);
    &&& (kind == IntegerErrorKind::Empty <==> s.len() == 0)
    &&& (s.len() > 0 && digits.len() == 0 ==> kind == IntegerErrorKind::InvalidDigit)
    &&& (digits.len() > 0 && all_digits && decimal_value(digits) > u64::MAX ==> kind
        == IntegerErrorKind::PosOverflow)
    &&& (0 < digits.len() <= 19 && !all_digits ==> kind == IntegerErrorKind::InvalidDigit)
}

/// Calls `<u64 as FromStr>::from_str` and, on failure, tells apart the variants of the
/// error's `kind()`. Claims what the standard library documents for it: the string is an
/// optional `+` sign followed by decimal digits only, and the value must fit in a `u64`;
/// any other string is an error, of the kind that `documented_u64_error_kind` gives. For
/// a string longer than 19 characters that holds a non-digit, whether the kind is
/// `InvalidDigit` or `PosOverflow` is not stated: the documentation does not say.
#[verifier::external_body]
fn u64_from_str(s: &str) -> (parsed: Result<u64, ParseIntegerError>)
    ensures
        parsed is Ok <==> parse_u64_decimal(s@) is Some,
        parsed matches Ok(v) ==> parse_u64_decimal(s@) == Some(v),
        parsed matches Err(e) ==> documented_u64_error_kind(s@, e.kind()),
{
    <u64 as std::str::FromStr>::from_str(s).map_err(|source| {
        let kind = match source.kind() {
            std::num::IntErrorKind::Empty => IntegerErrorKind::Empty,
            std::num::IntErrorKind::InvalidDigit => IntegerErrorKind::InvalidDigit,
            std::num::IntErrorKind::PosOverflow => IntegerErrorKind::PosOverflow,
            std::num::IntErrorKind::NegOverflow => IntegerErrorKind::NegOverflow,
            std::num::IntErrorKind::Zero => IntegerErrorKind::Zero,
            _ => IntegerErrorKind::Other,
        };
        ParseIntegerError { kind, source }
    })
}

/// Parses a whole number of seconds, as given on the command line for the TCP receive
/// timeout.
pub fn duration_secs_from_str(str_duration: &str) -> (duration: Result<Delay, ParseIntegerError>)
    ensures
        duration is Ok <==> parse_u64_decimal(str_duration@) is Some,
        duration matches Ok(d) ==> d@ == parse_u64_decimal(str_duration@).unwrap()
            * NANOS_PER_SEC,
        duration matches Err(e) ==> documented_u64_error_kind(str_duration@, e.kind()),
{
    match u64_from_str(str_duration) {
        Ok(secs) => Ok(Delay::from_secs(secs)),
        Err(e) => Err(e),
    }
}

/// The decimal digit character of `d`.
pub open spec fn digit_char(d: nat) -> char
    recommends
        d < 10,
{
    (('0' as nat) + d) as char
}

/// The decimal rendering of `n`: its digits, most significant first, without leading
/// zeros (`0` is rendered as one `0`), as `u64::to_string` writes it.
pub open spec fn decimal_rendering(n: nat) -> Seq<char>
    decreases n,
{
    if n < 10 {
        seq![digit_char(n)]
    } else {
        decimal_rendering(n / 10).push(digit_char(n % 10))
    }
}

/// The rendering is a non-empty string of digits that denotes `n`.
pub proof fn lemma_decimal_rendering_digits(n: nat)
    ensures
        decimal_rendering(n).len() > 0,
        forall|i: int|
            0 <= i < decimal_rendering(n).len() ==> is_decimal_digit(
                #[trigger] decimal_rendering(n)[i],
            ),
        decimal_value(decimal_rendering(n)) == n,
    decreases n,
{
    let r = decimal_rendering(n);
    let c = digit_char(n % 10);
    assert((c as nat) == ('0' as nat) + n % 10);
    if n >= 10 {
        let prefix = decimal_rendering(n / 10);
        lemma_decimal_rendering_digits(n / 10);
        assert(r.drop_last() =~= prefix);
        assert(r.last() == c);
        assert(decimal_value(r) == decimal_value(prefix) * 10 + ((c as nat) - ('0' as nat)) as nat);
        assert((n / 10) * 10 + n % 10 == n) by (nonlinear_arith);
        assert forall|i: int| 0 <= i < r.len() implies is_decimal_digit(#[trigger] r[i]) by {
            if i < prefix.len() {
                assert(r[i] == prefix[i]);
            }
        }
    } else {
        assert(r.drop_last() =~= Seq::<char>::empty());
        assert(decimal_value(r.drop_last()) == 0);
        assert(decimal_value(r) == ((c as nat) - ('0' as nat)) as nat);
    }
}

/// Parsing a number's decimal rendering gives the number back, so the receive timeout
/// given as `n.to_string()` seconds is read as `n` seconds.
pub proof fn lemma_parse_decimal_rendering(n: u64)
    ensures
        parse_u64_decimal(decimal_rendering(n as nat)) == Some(n),
{
    lemma_decimal_rendering_digits(n as nat);
    let r = decimal_rendering(n as nat);
    assert(is_decimal_digit(r[0]));
    assert(without_plus_sign(r) == r);
}

} // verus!
