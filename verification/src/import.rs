//! The host functions that the interpreter offers to WebAssembly modules
//! under the module name `env`: which ones exist with which signature, and
//! what those that compute give back.
use crate::text::{decimal, str_eq, u64_to_string};
use vstd::prelude::*;

verus! {

/// The module name under which the host functions are imported.
pub const MODULE_NAME: &'static str = "env";

/// The value types of WebAssembly.
#[derive(Debug, Clone, Copy, PartialEq, Eq, Structural)]
pub enum ValType {
    I32,
    I64,
    F32,
    F64,
}

/// Why an import is refused.
#[derive(Debug, Clone, PartialEq, Eq)]
pub enum ImportInvalidError {
    /// No host function has the name.
    NotFound,
    /// The host function has another signature.
    SignatureMismatch { expected_params: Vec<ValType>, expected_ret: Option<ValType> },
}

/// Why a call of a host function fails.
#[derive(Debug, Clone)]
pub enum ImportInvokeError {
    Fatal { message: String },
}

/// Whether two lists of value types are equal.
fn types_equal(a: &[ValType], b: &[ValType]) -> (r: bool)
    ensures
        r == (a@ == b@),
{
    if a.len() != b.len() {
        return false;
    }
    let mut i: usize = 0;
    while i < a.len()
        invariant
            i <= a@.len(),
            a@.len() == b@.len(),
            forall|j: int| 0 <= j < i ==> a@[j] == b@[j],
        decreases a@.len() - i,
    {
        if a[i] != b[i] {
            return false;
        }
        i = i + 1;
    }
    proof {
        assert(a@ =~= b@);
    }
    true
}

/// Checks an import's signature against the expected one; a mismatch names
/// the expected signature.
pub fn check_func_signature(
    actual_params: &[ValType],
    actual_ret: Option<ValType>,
    expected_params: &[ValType],
    expected_ret: Option<ValType>,
) -> (r: Option<ImportInvalidError>)
    ensures
        (actual_params@ == expected_params@ && actual_ret == expected_ret) ==> r is None,
        !(actual_params@ == expected_params@ && actual_ret == expected_ret) ==> (r matches Some(
            ImportInvalidError::SignatureMismatch { expected_params: p, expected_ret: t },
        ) && p@ == expected_params@ && t == expected_ret),
{
    if types_equal(actual_params, expected_params) && actual_ret == expected_ret {
        return None;
    }
    let mut p: Vec<ValType> = Vec::new();
    let mut i: usize = 0;
    while i < expected_params.len()
        invariant
            i <= expected_params@.len(),
            p@ == expected_params@.take(i as int),
        decreases expected_params@.len() - i,
    {
        p.push(expected_params[i]);
        proof {
            assert(expected_params@.take(i + 1) =~= expected_params@.take(i as int).push(
                expected_params@[i as int],
            ));
        }
        i = i + 1;
    }
    proof {
        assert(expected_params@.take(expected_params@.len() as int) =~= expected_params@);
    }
    Some(ImportInvalidError::SignatureMismatch { expected_params: p, expected_ret })
}

/// The signature of each host function: its parameter types and result
/// type; `None` for a name that is no host function.
pub open spec fn host_signature(name: Seq<char>) -> Option<(Seq<ValType>, Option<ValType>)> {
    if name == "putchar"@ || name == "usleep"@ || name == "send_char"@ {
        Some((seq![ValType::I32], Some(ValType::I32)))
    } else if name == "getchar"@ || name == "rand"@ || name == "getchar_nonblocking"@ || name
        == "readkey"@ {
        Some((Seq::empty(), Some(ValType::I32)))
    } else if name == "memcpy"@ {
        Some((seq![ValType::I32, ValType::I32, ValType::I32], Some(ValType::I32)))
    } else if name == "abort"@ {
        Some((Seq::empty(), None))
    } else {
        None
    }
}

/// Checks that a module may import `name` with the given signature.
pub fn validate(name: &str, params: &[ValType], ret: Option<ValType>) -> (r: Option<ImportInvalidError>)
    ensures
        match host_signature(name@) {
            None => r == Some(ImportInvalidError::NotFound),
            Some((p, t)) => if params@ == p && ret == t {
                r is None
            } else {
                r matches Some(ImportInvalidError::SignatureMismatch { expected_params: q, expected_ret: u })
                    && q@ == p && u == t
            },
        },
{
    let one = [ValType::I32];
    let three = [ValType::I32, ValType::I32, ValType::I32];
    let none: [ValType; 0] = [];
    proof {
        assert(one@ =~= seq![ValType::I32]);
        assert(three@ =~= seq![ValType::I32, ValType::I32, ValType::I32]);
        assert(none@ =~= Seq::<ValType>::empty());
    }
    if str_eq(name, "putchar") || str_eq(name, "usleep") || str_eq(name, "send_char") {
        check_func_signature(params, ret, one.as_slice(), Some(ValType::I32))
    } else if str_eq(name, "getchar") || str_eq(name, "rand") || str_eq(name, "getchar_nonblocking")
        || str_eq(name, "readkey") {
        check_func_signature(params, ret, none.as_slice(), Some(ValType::I32))
    } else if str_eq(name, "memcpy") {
        check_func_signature(params, ret, three.as_slice(), Some(ValType::I32))
    } else if str_eq(name, "abort") {
        check_func_signature(params, ret, none.as_slice(), None)
    } else {
        Some(ImportInvalidError::NotFound)
    }
}

/// The error of the host function `abort`.
pub fn abort_error() -> (r: ImportInvokeError)
    ensures
        r matches ImportInvokeError::Fatal { message } && message@ == "aborted"@,
{
    ImportInvokeError::Fatal { message: "aborted".to_string() }
}

/// The key code that `readkey` gives for a pressed key: the arrow codes for
/// `w`, `s`, `d`, `a`, the character codes of `q` and `p`, else -1.
pub open spec fn spec_key_code(key: char) -> i32 {
    if key == 'w' {
        65
    } else if key == 's' {
        66
    } else if key == 'd' {
        67
    } else if key == 'a' {
        68
    } else if key == 'q' {
        113
    } else if key == 'p' {
        112
    } else {
        -1i32
    }
}

/// `readkey`: the code of the first key of the pending input, which is then
/// replaced by a blank.
pub fn readkey(input: &mut String) -> (r: i32)
    requires
        old(input)@.len() > 0,
    ensures
        r == spec_key_code(old(input)@[0]),
        final(input)@ == " "@,
{
    let key = input.as_str().get_char(0);
    *input = " ".to_string();
    if key == 'w' {
        65
    } else if key == 's' {
        66
    } else if key == 'd' {
        67
    } else if key == 'a' {
        68
    } else if key == 'q' {
        113
    } else if key == 'p' {
        112
    } else {
        -1
    }
}

/// `send_char`: the low byte of `v` goes to the module's output, and `v` is
/// given back.
pub fn send_char(output: &mut Vec<u8>, v: i32) -> (r: i32)
    ensures
        r == v,
        final(output)@ == old(output)@.push(v as u8),
{
    #[verifier::truncate]
    let b = v as u8;
    output.push(b);
    v
}

/// `getchar`: the byte that was read, or -1 at the end of the input.
pub fn getchar_value(read: Option<u8>) -> (r: i32)
    ensures
        r == match read {
            Some(b) => b as i32,
            None => -1i32,
        },
{
    match read {
        Some(b) => b as i32,
        None => -1,
    }
}

/// `memcpy(dest, src, size)` on a module's memory, with the arguments read
/// as unsigned: copies `size` bytes from `src` to `dest` when the two ranges
/// do not overlap, and gives `dest` back.
pub open spec fn memcpy_ranges(dest: i32, src: i32, size: i32) -> (int, int, int, int) {
    let size = size as u32 as int;
    let src_start = src as u32 as int;
    let dest_start = dest as u32 as int;
    (src_start, src_start + size, dest_start, dest_start + size)
}

/// The error text for overlapping `memcpy` ranges.
pub open spec fn overlap_message(src_start: int, src_end: int, dest_start: int, dest_end: int) -> Seq<
    char,
> {
    "range overwrap on memcpy: src="@ + decimal(src_start as nat) + ".."@ + decimal(src_end as nat)
        + " and dest="@ + decimal(dest_start as nat) + ".."@ + decimal(dest_end as nat)
}

/// `memcpy`: copies between non-overlapping ranges of the memory; fails on
/// overlapping ones.
pub fn memcpy(memory: &mut Vec<u8>, dest: i32, src: i32, size: i32) -> (r: Result<i32, ImportInvokeError>)
    requires
        ({
            let (ss, se, ds, de) = memcpy_ranges(dest, src, size);
            (de <= ss || se <= ds) ==> (se <= old(memory)@.len() && de <= old(memory)@.len())
        }),
    ensures
        ({
            let (ss, se, ds, de) = memcpy_ranges(dest, src, size);
            if de <= ss || se <= ds {
                &&& r == Ok::<i32, ImportInvokeError>(dest)
                &&& final(memory)@.len() == old(memory)@.len()
                &&& forall|k: int|
                    0 <= k < final(memory)@.len() ==> #[trigger] final(memory)@[k] == if ds <= k < de {
                        old(memory)@[ss + (k - ds)]
                    } else {
                        old(memory)@[k]
                    }
            } else {
                &&& r matches Err(ImportInvokeError::Fatal { message }) && message@ == overlap_message(
                    ss,
                    se,
                    ds,
                    de,
                )
                &&& final(memory)@ == old(memory)@
            }
        }),
{
    #[verifier::truncate]
    let size_u = size as u32;
    #[verifier::truncate]
    let src_u = src as u32;
    #[verifier::truncate]
    let dest_u = dest as u32;
    let size_w = size_u as u64;
    let src_start = src_u as u64;
    let dest_start = dest_u as u64;
    let src_end = src_start + size_w;
    let dest_end = dest_start + size_w;
    if !(dest_end <= src_start || src_end <= dest_start) {
        let mut message = "range overwrap on memcpy: src=".to_string();
        message.append(u64_to_string(src_start).as_str());
        message.append("..");
        message.append(u64_to_string(src_end).as_str());
        message.append(" and dest=");
        message.append(u64_to_string(dest_start).as_str());
        message.append("..");
        message.append(u64_to_string(dest_end).as_str());
        return Err(ImportInvokeError::Fatal { message });
    }
    let ghost before = memory@;
    let len = memory.len();
    let n = size_w as usize;
    let s0 = src_start as usize;
    let d0 = dest_start as usize;
    let mut k: usize = 0;
    while k < n
        invariant
            k <= n,
            n == size_w,
            s0 == src_start,
            d0 == dest_start,
            s0 + n <= before.len(),
            d0 + n <= before.len(),
            before.len() == len,
            d0 + n <= s0 || s0 + n <= d0,
            memory@.len() == before.len(),
            forall|t: int|
                0 <= t < memory@.len() ==> #[trigger] memory@[t] == if d0 <= t < d0 + k {
                    before[s0 + (t - d0)]
                } else {
                    before[t]
                },
        decreases n - k,
    {
        let b = memory[s0 + k];
        memory.set(d0 + k, b);
        k = k + 1;
    }
    Ok(dest)
}

/// What a call of a host function does.
#[derive(Debug, Clone, Copy, PartialEq, Eq, Structural)]
pub enum HostCall {
    Putchar,
    Getchar,
    Abort,
    Memcpy,
    Usleep,
    Rand,
    GetcharNonblocking,
    Readkey,
    SendChar,
}

/// The host function that `name` calls; only names that exist are called.
pub open spec fn spec_host_call(name: Seq<char>) -> HostCall {
    if name == "putchar"@ {
        HostCall::Putchar
    } else if name == "getchar"@ {
        HostCall::Getchar
    } else if name == "abort"@ {
        HostCall::Abort
    } else if name == "memcpy"@ {
        HostCall::Memcpy
    } else if name == "usleep"@ {
        HostCall::Usleep
    } else if name == "rand"@ {
        HostCall::Rand
    } else if name == "getchar_nonblocking"@ {
        HostCall::GetcharNonblocking
    } else if name == "readkey"@ {
        HostCall::Readkey
    } else {
        HostCall::SendChar
    }
}

/// Law: each accepted import name is dispatched to the host function of
/// that name, and no two names to the same one.
pub proof fn law_host_call_is_the_named_function(name: Seq<char>)
    requires
        host_signature(name) is Some,
    ensures
        (spec_host_call(name) == HostCall::Putchar) == (name == "putchar"@),
        (spec_host_call(name) == HostCall::Getchar) == (name == "getchar"@),
        (spec_host_call(name) == HostCall::Abort) == (name == "abort"@),
        (spec_host_call(name) == HostCall::Memcpy) == (name == "memcpy"@),
        (spec_host_call(name) == HostCall::Usleep) == (name == "usleep"@),
        (spec_host_call(name) == HostCall::Rand) == (name == "rand"@),
        (spec_host_call(name) == HostCall::GetcharNonblocking) == (name == "getchar_nonblocking"@),
        (spec_host_call(name) == HostCall::Readkey) == (name == "readkey"@),
        (spec_host_call(name) == HostCall::SendChar) == (name == "send_char"@),
{
    reveal_strlit("putchar");
    reveal_strlit("getchar");
    reveal_strlit("abort");
    reveal_strlit("memcpy");
    reveal_strlit("usleep");
    reveal_strlit("rand");
    reveal_strlit("getchar_nonblocking");
    reveal_strlit("readkey");
    reveal_strlit("send_char");
    assert("putchar"@.len() == 7);
    assert("getchar"@.len() == 7);
    assert("abort"@.len() == 5);
    assert("memcpy"@.len() == 6);
    assert("usleep"@.len() == 6);
    assert("rand"@.len() == 4);
    assert("getchar_nonblocking"@.len() == 19);
    assert("readkey"@.len() == 7);
    assert("send_char"@.len() == 9);
    assert("putchar"@[0] != "getchar"@[0]);
    assert("putchar"@[0] != "readkey"@[0]);
    assert("getchar"@[0] != "readkey"@[0]);
    assert("memcpy"@[0] != "usleep"@[0]);
}

/// Dispatches a call of the host function `name`, which validation has
/// accepted.
pub fn host_call(name: &str) -> (r: HostCall)
    requires
        host_signature(name@) is Some,
    ensures
        r == spec_host_call(name@),
        name@ == "putchar"@ ==> r == HostCall::Putchar,
        name@ == "getchar"@ ==> r == HostCall::Getchar,
        name@ == "abort"@ ==> r == HostCall::Abort,
        name@ == "memcpy"@ ==> r == HostCall::Memcpy,
        name@ == "usleep"@ ==> r == HostCall::Usleep,
        name@ == "rand"@ ==> r == HostCall::Rand,
        name@ == "getchar_nonblocking"@ ==> r == HostCall::GetcharNonblocking,
        name@ == "readkey"@ ==> r == HostCall::Readkey,
        name@ == "send_char"@ ==> r == HostCall::SendChar,
{
    proof {
        law_host_call_is_the_named_function(name@);
    }
    if str_eq(name, "putchar") {
        HostCall::Putchar
    } else if str_eq(name, "getchar") {
        HostCall::Getchar
    } else if str_eq(name, "abort") {
        HostCall::Abort
    } else if str_eq(name, "memcpy") {
        HostCall::Memcpy
    } else if str_eq(name, "usleep") {
        HostCall::Usleep
    } else if str_eq(name, "rand") {
        HostCall::Rand
    } else if str_eq(name, "getchar_nonblocking") {
        HostCall::GetcharNonblocking
    } else if str_eq(name, "readkey") {
        HostCall::Readkey
    } else {
        HostCall::SendChar
    }
}

} // verus!
