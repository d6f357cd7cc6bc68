//! Rendezvous tokens: the names under which parent and child meet.
//!
//! A token is derived from the parent's process id and a number that the
//! parent draws afresh for each spawn, so that no two spawns, whether from one
//! parent or from two, ever share an endpoint.
use vstd::prelude::*;
use vstd::utf8::*;

use crate::text::{join_text, string_from_encoding};

verus! {

broadcast use group_utf8_lib;

/// The environment variable that carries the token to the child.
pub const IPC_ENV_VAR: &'static str = "IPC_SOCKET_PATH";

/// The character for a decimal digit.
pub open spec fn digit_char(d: nat) -> char
    recommends
        d < 10,
{
    seq!['0', '1', '2', '3', '4', '5', '6', '7', '8', '9'][d as int]
}

/// The decimal numeral of `n`, without leading zeros.
pub open spec fn decimal(n: nat) -> Seq<char>
    decreases n,
{
    if n < 10 {
        seq![digit_char(n)]
    } else {
        decimal(n / 10).push(digit_char(n % 10))
    }
}

/// The common start of every token.
pub open spec fn token_stem() -> Seq<char> {
    seq!['r', 'u', 's', 't', '-', 'i', 'p', 'c', '-']
}

/// What tells one spawn from all others: the parent's process id and the
/// spawn's own number, joined by a dash.
pub open spec fn spawn_tag(pid: nat, nonce: nat) -> Seq<char> {
    decimal(pid) + seq!['-'] + decimal(nonce)
}

/// The name of the pipe that the child of spawn `nonce` of process `pid`
/// creates (Windows).
pub open spec fn pipe_name_spec(pid: nat, nonce: nat) -> Seq<char> {
    token_stem() + spawn_tag(pid, nonce)
}

/// The file name of the socket on which process `pid` listens for the child
/// of its spawn `nonce` (Unix); it lives in the system's temporary directory.
pub open spec fn socket_file_name_spec(pid: nat, nonce: nat) -> Seq<char> {
    pipe_name_spec(pid, nonce) + seq!['.', 's', 'o', 'c', 'k']
}

/// The namespace in which Windows named pipes live.
pub open spec fn pipe_namespace() -> Seq<char> {
    seq!['\\', '\\', '.', '\\', 'p', 'i', 'p', 'e', '\\']
}

/// The path under which a pipe called `name` is opened (Windows).
pub open spec fn pipe_path_spec(name: Seq<char>) -> Seq<char> {
    pipe_namespace() + name
}

/// The bytes of an ASCII character sequence, one per character.
pub open spec fn ascii_bytes(s: Seq<char>) -> Seq<u8> {
    s.map_values(|c: char| c as u8)
}

proof fn lemma_digit_char(d: nat)
    requires
        d < 10,
    ensures
        digit_char(d) as u8 == 48 + d,
        '0' <= digit_char(d) <= '9',
{
}

proof fn lemma_decimal_ascii(n: nat)
    ensures
        is_ascii_chars(decimal(n)),
        forall|i| 0 <= i < decimal(n).len() ==> '0' <= #[trigger] decimal(n)[i] <= '9',
        decimal(n).len() >= 1,
        n < 10 <==> decimal(n).len() == 1,
    decreases n,
{
    lemma_digit_char(n % 10);
    if n >= 10 {
        lemma_decimal_ascii(n / 10);
        let s = decimal(n);
        assert forall|i| 0 <= i < s.len() implies '0' <= #[trigger] s[i] <= '9' by {
            if i < s.len() - 1 {
                assert(s[i] == decimal(n / 10)[i]);
            }
        }
        assert(is_ascii_chars(decimal(n)));
    }
}

/// Different numbers have different numerals.
proof fn lemma_decimal_injective(a: nat, b: nat)
    requires
        decimal(a) == decimal(b),
    ensures
        a == b,
    decreases a,
{
    lemma_decimal_ascii(a);
    lemma_decimal_ascii(b);
    let da = decimal(a);
    let db = decimal(b);
    lemma_digit_char(a % 10);
    lemma_digit_char(b % 10);
    assert(da.last() == digit_char(a % 10));
    assert(db.last() == digit_char(b % 10));
    assert(a % 10 == b % 10);
    if a >= 10 && b >= 10 {
        assert(da.drop_last() == decimal(a / 10));
        assert(db.drop_last() == decimal(b / 10));
        lemma_decimal_injective(a / 10, b / 10);
    }
}

/// A tag names its process id and its spawn number unambiguously.
proof fn lemma_tag_injective(a: nat, b: nat, c: nat, d: nat)
    requires
        spawn_tag(a, b) == spawn_tag(c, d),
    ensures
        a == c,
        b == d,
{
    lemma_decimal_ascii(a);
    lemma_decimal_ascii(c);
    let s = spawn_tag(a, b);
    let x = decimal(a);
    let y = decimal(c);
    if x.len() < y.len() {
        assert(s[x.len() as int] == '-');
        assert(spawn_tag(c, d)[x.len() as int] == y[x.len() as int]);
    } else if y.len() < x.len() {
        assert(spawn_tag(c, d)[y.len() as int] == '-');
        assert(s[y.len() as int] == x[y.len() as int]);
    } else {
        assert(s.subrange(0, x.len() as int) =~= x);
        assert(spawn_tag(c, d).subrange(0, y.len() as int) =~= y);
        lemma_decimal_injective(a, c);
        assert(s.subrange(x.len() as int + 1, s.len() as int) =~= decimal(b));
        assert(spawn_tag(c, d).subrange(y.len() as int + 1, s.len() as int) =~= decimal(d));
        lemma_decimal_injective(b, d);
    }
}

/// Two spawns never name the same socket or pipe, unless they are spawn
/// number `nonce` of one and the same parent process `pid`.
pub proof fn tokens_unique(pid_a: nat, nonce_a: nat, pid_b: nat, nonce_b: nat)
    requires
        pid_a != pid_b || nonce_a != nonce_b,
    ensures
        socket_file_name_spec(pid_a, nonce_a) != socket_file_name_spec(pid_b, nonce_b),
        pipe_name_spec(pid_a, nonce_a) != pipe_name_spec(pid_b, nonce_b),
        pipe_path_spec(pipe_name_spec(pid_a, nonce_a)) != pipe_path_spec(
            pipe_name_spec(pid_b, nonce_b),
        ),
{
    let k = token_stem().len();
    let na = pipe_name_spec(pid_a, nonce_a);
    let nb = pipe_name_spec(pid_b, nonce_b);
    if na == nb {
        assert(na.subrange(k as int, na.len() as int) == spawn_tag(pid_a, nonce_a));
        assert(nb.subrange(k as int, nb.len() as int) == spawn_tag(pid_b, nonce_b));
        lemma_tag_injective(pid_a, nonce_a, pid_b, nonce_b);
    }
    if socket_file_name_spec(pid_a, nonce_a) == socket_file_name_spec(pid_b, nonce_b) {
        let sa = socket_file_name_spec(pid_a, nonce_a);
        let sb = socket_file_name_spec(pid_b, nonce_b);
        assert(sa.subrange(0, sa.len() - 5) == na);
        assert(sb.subrange(0, sb.len() - 5) == nb);
    }
    if pipe_path_spec(na) == pipe_path_spec(nb) {
        let pa = pipe_path_spec(na);
        let pb = pipe_path_spec(nb);
        assert(pa.subrange(9, pa.len() as int) == na);
        assert(pb.subrange(9, pb.len() as int) == nb);
    }
}

proof fn lemma_ascii_encoding(s: Seq<char>)
    requires
        is_ascii_chars(s),
    ensures
        encode_utf8(s) == ascii_bytes(s),
{
    assert(encode_utf8(s) =~= ascii_bytes(s));
}

/// Appends the ASCII bytes of the decimal numeral of `n`.
fn push_decimal(out: &mut Vec<u8>, n: u64)
    ensures
        final(out)@ == old(out)@ + ascii_bytes(decimal(n as nat)),
    decreases n,
{
    proof {
        lemma_digit_char((n % 10) as nat);
    }
    if n >= 10 {
        push_decimal(out, n / 10);
    }
    let d: u8 = (n % 10) as u8;
    out.push(48 + d);
    proof {
        if n >= 10 {
            assert(decimal(n as nat) == decimal((n / 10) as nat).push(digit_char((n % 10) as nat)));
        }
        assert(final(out)@ =~= old(out)@ + ascii_bytes(decimal(n as nat)));
    }
}

/// Appends the ASCII bytes of a literal character sequence.
fn push_ascii(out: &mut Vec<u8>, s: &[u8], Ghost(chars): Ghost<Seq<char>>)
    requires
        s@ == ascii_bytes(chars),
    ensures
        final(out)@ == old(out)@ + ascii_bytes(chars),
{
    let mut i: usize = 0;
    while i < s.len()
        invariant
            i <= s@.len(),
            s@ == ascii_bytes(chars),
            out@ == old(out)@ + s@.subrange(0, i as int),
        decreases s@.len() - i,
    {
        out.push(s[i]);
        i = i + 1;
        proof {
            assert(out@ =~= old(out)@ + s@.subrange(0, i as int));
        }
    }
    proof {
        assert(s@.subrange(0, i as int) =~= s@);
    }
}

/// The bytes of the name of the pipe of spawn `nonce` of process `pid`.
fn pipe_name_bytes(pid: u32, nonce: u64) -> (r: Vec<u8>)
    ensures
        r@ == ascii_bytes(pipe_name_spec(pid as nat, nonce as nat)),
        is_ascii_chars(pipe_name_spec(pid as nat, nonce as nat)),
{
    let mut out: Vec<u8> = Vec::new();
    let stem: [u8; 9] = [114, 117, 115, 116, 45, 105, 112, 99, 45];
    let dash: [u8; 1] = [45];
    let ghost sep = seq!['-'];
    proof {
        assert(stem@ =~= ascii_bytes(token_stem()));
        assert(dash@ =~= ascii_bytes(sep));
    }
    push_ascii(&mut out, stem.as_slice(), Ghost(token_stem()));
    push_decimal(&mut out, pid as u64);
    push_ascii(&mut out, dash.as_slice(), Ghost(sep));
    push_decimal(&mut out, nonce);
    proof {
        lemma_decimal_ascii(pid as nat);
        lemma_decimal_ascii(nonce as nat);
        let name = pipe_name_spec(pid as nat, nonce as nat);
        assert(name =~= token_stem() + decimal(pid as nat) + seq!['-'] + decimal(nonce as nat));
        assert(is_ascii_chars(name)) by {
            assert forall|i| 0 <= i < name.len() implies '\0' <= #[trigger] name[i] <= '\u{7f}' by {
                let k = token_stem().len() + decimal(pid as nat).len();
                if i >= token_stem().len() && i < k {
                    assert(name[i] == decimal(pid as nat)[i - token_stem().len()]);
                } else if i > k {
                    assert(name[i] == decimal(nonce as nat)[i - k - 1]);
                }
            }
        }
        assert(out@ =~= ascii_bytes(name));
    }
    out
}

/// The name of the pipe that the child of spawn `nonce` of process `pid`
/// creates (Windows).
pub fn pipe_name(pid: u32, nonce: u64) -> (r: String)
    ensures
        r@ == pipe_name_spec(pid as nat, nonce as nat),
{
    let bytes = pipe_name_bytes(pid, nonce);
    proof {
        lemma_ascii_encoding(pipe_name_spec(pid as nat, nonce as nat));
    }
    string_from_encoding(bytes, Ghost(pipe_name_spec(pid as nat, nonce as nat)))
}

/// The file name of the socket on which process `pid` listens for the child
/// of its spawn `nonce` (Unix), to be placed in the system's temporary directory.
pub fn socket_file_name(pid: u32, nonce: u64) -> (r: String)
    ensures
        r@ == socket_file_name_spec(pid as nat, nonce as nat),
{
    let mut bytes = pipe_name_bytes(pid, nonce);
    let suffix: [u8; 5] = [46, 115, 111, 99, 107];
    let ghost sfx = seq!['.', 's', 'o', 'c', 'k'];
    proof {
        assert(suffix@ =~= ascii_bytes(sfx));
    }
    push_ascii(&mut bytes, suffix.as_slice(), Ghost(sfx));
    proof {
        let name = pipe_name_spec(pid as nat, nonce as nat);
        assert(is_ascii_chars(sfx));
        assert(is_ascii_chars(name + sfx));
        assert(bytes@ =~= ascii_bytes(name + sfx));
        lemma_ascii_encoding(name + sfx);
    }
    string_from_encoding(bytes, Ghost(socket_file_name_spec(pid as nat, nonce as nat)))
}

/// The namespace in which Windows named pipes live.
pub const PIPE_NAMESPACE: &'static str = "\\\\.\\pipe\\";

/// The path under which the pipe called `name` is opened (Windows).
pub fn pipe_path(name: &str) -> (r: String)
    ensures
        r@ == pipe_path_spec(name@),
{
    proof {
        reveal_strlit("\\\\.\\pipe\\");
        assert(PIPE_NAMESPACE@ =~= pipe_namespace());
    }
    join_text(PIPE_NAMESPACE, name)
}

} // verus!
