//! Host functions that the wasmtime runtime links into modules: the camera
//! functions and the arguments of `ping`.
//!
//! A module's linear memory is a byte vector here; reads and writes out of
//! its bounds fail as those of wasmtime's `Memory` do.
use vstd::bytes::{spec_u32_from_le_bytes, spec_u32_to_le_bytes, u32_from_le_bytes, u32_to_le_bytes};
use vstd::prelude::*;

verus! {

/// The `i32` that a WebAssembly value holds, if it is one.
pub uninterp spec fn val_i32(v: ::wasmtime::Val) -> Option<i32>;

/// Tells the `Val::I32` variant of `::wasmtime::Val` apart from the others.
#[verifier::external_body]
fn as_i32(v: &::wasmtime::Val) -> (r: Option<i32>)
    ensures
        r == val_i32(*v),
{
    match v {
        ::wasmtime::Val::I32(x) => Some(*x),
        _ => None,
    }
}

/// Argument `i` as an `i32`: `None` when it is missing or of another type.
pub open spec fn arg_i32(args: Seq<::wasmtime::Val>, i: int) -> Option<i32> {
    if 0 <= i < args.len() {
        val_i32(args[i])
    } else {
        None
    }
}

/// Reads argument `i` as an `i32`.
pub fn i32_arg(args: &[::wasmtime::Val], i: usize) -> (r: Option<i32>)
    ensures
        r == arg_i32(args@, i as int),
{
    if i < args.len() {
        as_i32(&args[i])
    } else {
        None
    }
}

/// The error of a memory access out of bounds.
pub open spec fn out_of_bounds() -> Seq<char> {
    "out of bounds memory access"@
}

/// The memory after writing `data` at `offset`, or `None` when it does not fit.
pub open spec fn memory_written(mem: Seq<u8>, offset: int, data: Seq<u8>) -> Option<Seq<u8>> {
    if 0 <= offset && offset + data.len() <= mem.len() {
        Some(mem.subrange(0, offset) + data + mem.subrange(offset + data.len(), mem.len() as int))
    } else {
        None
    }
}

/// Writes `data` into `memory` at `offset`.
pub fn write_memory(memory: &mut Vec<u8>, offset: usize, data: &[u8]) -> (r: Result<(), String>)
    ensures
        match memory_written(old(memory)@, offset as int, data@) {
            Some(m) => r is Ok && final(memory)@ == m,
            None => (r matches Err(e) && e@ == out_of_bounds()) && final(memory)@ == old(memory)@,
        },
{
    let len = memory.len();
    if offset > len || data.len() > len - offset {
        return Err("out of bounds memory access".to_string());
    }
    let ghost before = memory@;
    let mut k: usize = 0;
    while k < data.len()
        invariant
            k <= data@.len(),
            offset + data@.len() <= before.len(),
            before.len() == len,
            memory@.len() == before.len(),
            forall|t: int|
                0 <= t < memory@.len() ==> #[trigger] memory@[t] == if offset <= t < offset + k {
                    data@[t - offset]
                } else {
                    before[t]
                },
        decreases data@.len() - k,
    {
        memory.set(offset + k, data[k]);
        k = k + 1;
    }
    proof {
        assert(memory@ =~= before.subrange(0, offset as int) + data@ + before.subrange(
            offset + data@.len(),
            before.len() as int,
        ));
    }
    Ok(())
}

/// Reads four bytes of `memory` at `offset`.
pub fn read_memory4(memory: &Vec<u8>, offset: usize) -> (r: Result<Vec<u8>, String>)
    ensures
        offset + 4 <= memory@.len() ==> (r matches Ok(v) && v@ == memory@.subrange(
            offset as int,
            offset + 4,
        )),
        offset + 4 > memory@.len() ==> (r matches Err(e) && e@ == out_of_bounds()),
{
    let len = memory.len();
    if offset > len || 4 > len - offset {
        return Err("out of bounds memory access".to_string());
    }
    let mut v: Vec<u8> = Vec::new();
    v.push(memory[offset]);
    v.push(memory[offset + 1]);
    v.push(memory[offset + 2]);
    v.push(memory[offset + 3]);
    assert(v@ =~= memory@.subrange(offset as int, offset + 4));
    Ok(v)
}

/// The two pointer arguments of a camera function, read as unsigned.
pub open spec fn pointer_args(args: Seq<::wasmtime::Val>) -> Result<(u32, u32), Seq<char>> {
    match arg_i32(args, 0) {
        None => Err("Expected first argument to be i32"@),
        Some(a) => match arg_i32(args, 1) {
            None => Err("Expected second argument to be i32"@),
            Some(b) => Ok((a as u32, b as u32)),
        },
    }
}

/// Reads the two pointer arguments of a camera function.
fn read_pointer_args(args: &[::wasmtime::Val]) -> (r: Result<(u32, u32), String>)
    ensures
        match pointer_args(args@) {
            Ok(p) => r == Ok::<(u32, u32), String>(p),
            Err(e) => r matches Err(m) && m@ == e,
        },
{
    let a = match i32_arg(args, 0) {
        Some(a) => a,
        None => {
            return Err("Expected first argument to be i32".to_string());
        },
    };
    let b = match i32_arg(args, 1) {
        Some(b) => b,
        None => {
            return Err("Expected second argument to be i32".to_string());
        },
    };
    #[verifier::truncate]
    let pa = a as u32;
    #[verifier::truncate]
    let pb = b as u32;
    Ok((pa, pb))
}

/// The picture cut to `size` bytes.
pub open spec fn cut_to(img: Seq<u8>, size: nat) -> Seq<u8> {
    if img.len() > size {
        img.take(size as int)
    } else {
        img
    }
}

/// The number of picture bytes that fit a buffer of `size` bytes.
pub open spec fn fitting_len(img_len: nat, size: nat) -> int {
    if img_len <= size {
        img_len as int
    } else {
        size as int
    }
}

/// Law: a memory write puts exactly the written bytes at the offset and
/// leaves every other byte and the memory's length as they were.
pub proof fn law_memory_write_places_the_data(mem: Seq<u8>, offset: int, data: Seq<u8>)
    ensures
        (0 <= offset && offset + data.len() <= mem.len()) == memory_written(mem, offset, data) is Some,
        memory_written(mem, offset, data) matches Some(m) ==> {
            &&& m.len() == mem.len()
            &&& m.subrange(offset, offset + data.len()) == data
            &&& forall|k: int|
                0 <= k < mem.len() && !(offset <= k < offset + data.len()) ==> #[trigger] m[k] == mem[k]
        },
{
    if let Some(m) = memory_written(mem, offset, data) {
        assert(m.subrange(offset, offset + data.len()) =~= data);
    }
}

/// Law: the picture cut to a declared size is its first bytes, as many as
/// fit: the whole picture when it is no longer than the size, else the
/// first `size` bytes.
pub proof fn law_cut_picture_is_the_fitting_prefix(img: Seq<u8>, size: nat)
    ensures
        cut_to(img, size) == img.take(fitting_len(img.len(), size)),
        cut_to(img, size).len() == fitting_len(img.len(), size),
        img.len() <= size ==> cut_to(img, size) == img,
        forall|k: int| 0 <= k < cut_to(img, size).len() ==> #[trigger] cut_to(img, size)[k] == img[k],
{
    if img.len() <= size {
        assert(img.take(img.len() as int) =~= img);
    }
}

/// `takeImageStaticSize(out_ptr, size_ptr)`: reads the declared size as a
/// little-endian `u32` at `size_ptr`, cuts the captured picture to it and
/// writes it at `out_ptr`.  `capture` is the outcome of capturing a picture.
pub fn takeImageStaticSize(
    args: &[::wasmtime::Val],
    memory: &mut Vec<u8>,
    capture: Result<Vec<u8>, String>,
) -> (r: Result<(), String>)
    ensures
        match pointer_args(args@) {
            Err(e) => (r matches Err(m) && m@ == e) && final(memory)@ == old(memory)@,
            Ok((out_ptr, size_ptr)) => if size_ptr + 4 > old(memory)@.len() {
                (r matches Err(m) && m@ == out_of_bounds()) && final(memory)@ == old(memory)@
            } else {
                match capture {
                    Err(e) => r == Err::<(), String>(e) && final(memory)@ == old(memory)@,
                    Ok(img) => {
                        let size = spec_u32_from_le_bytes(
                            old(memory)@.subrange(size_ptr as int, size_ptr + 4),
                        );
                        match memory_written(old(memory)@, out_ptr as int, cut_to(img@, size as nat)) {
                            Some(m) => r is Ok && final(memory)@ == m,
                            None => (r matches Err(e) && e@ == out_of_bounds()) && final(memory)@
                                == old(memory)@,
                        }
                    },
                }
            },
        },
        r is Ok ==> (pointer_args(args@) matches Ok((out_ptr, size_ptr)) && capture matches Ok(img) && ({
            let size = spec_u32_from_le_bytes(old(memory)@.subrange(size_ptr as int, size_ptr + 4)) as int;
            let n = if img@.len() <= size {
                img@.len() as int
            } else {
                size
            };
            &&& final(memory)@.len() == old(memory)@.len()
            &&& final(memory)@.subrange(out_ptr as int, out_ptr + n) == img@.take(n)
        })),
{
    proof {
        if let Ok((out_ptr, size_ptr)) = pointer_args(args@) {
            if size_ptr + 4 <= old(memory)@.len() {
                if let Ok(img) = &capture {
                    let size = spec_u32_from_le_bytes(
                        old(memory)@.subrange(size_ptr as int, size_ptr + 4),
                    );
                    law_cut_picture_is_the_fitting_prefix(img@, size as nat);
                    law_memory_write_places_the_data(old(memory)@, out_ptr as int, cut_to(img@, size as nat));
                }
            }
        }
    }
    let (out_ptr, size_ptr) = read_pointer_args(args)?;
    let size_bytes = read_memory4(memory, size_ptr as usize)?;
    let expected_size = u32_from_le_bytes(size_bytes.as_slice()) as usize;
    let mut image_data = capture?;
    if image_data.len() > expected_size {
        image_data.truncate(expected_size);
    }
    write_memory(memory, out_ptr as usize, image_data.as_slice())
}

/// `takeImageDynamicSize(out_ptr_ptr, out_size_ptr)`: writes the captured
/// picture at the start of the memory, then its position (0) as a
/// little-endian `u32` at `out_ptr_ptr` and its length, cut to 32 bits, at
/// `out_size_ptr`.
pub fn takeImageDynamicSize(
    args: &[::wasmtime::Val],
    memory: &mut Vec<u8>,
    capture: Result<Vec<u8>, String>,
) -> (r: Result<(), String>)
    ensures
        match pointer_args(args@) {
            Err(e) => (r matches Err(m) && m@ == e) && final(memory)@ == old(memory)@,
            Ok((out_ptr_ptr, out_size_ptr)) => match capture {
                Err(e) => r == Err::<(), String>(e) && final(memory)@ == old(memory)@,
                Ok(img) => match memory_written(old(memory)@, 0, img@) {
                    None => (r matches Err(e) && e@ == out_of_bounds()) && final(memory)@ == old(memory)@,
                    Some(m1) => match memory_written(m1, out_ptr_ptr as int, spec_u32_to_le_bytes(0)) {
                        None => (r matches Err(e) && e@ == out_of_bounds()) && final(memory)@ == m1,
                        Some(m2) => match memory_written(
                            m2,
                            out_size_ptr as int,
                            spec_u32_to_le_bytes(img@.len() as u32),
                        ) {
                            None => (r matches Err(e) && e@ == out_of_bounds()) && final(memory)@ == m2,
                            Some(m3) => r is Ok && final(memory)@ == m3,
                        },
                    },
                },
            },
        },
{
    let (out_ptr_ptr, out_size_ptr) = read_pointer_args(args)?;
    let image_data = capture?;
    let data_len = image_data.len();
    write_memory(memory, 0, image_data.as_slice())?;
    let pointer_bytes = u32_to_le_bytes(0);
    write_memory(memory, out_ptr_ptr as usize, pointer_bytes.as_slice())?;
    #[verifier::truncate]
    let length = data_len as u32;
    let length_bytes = u32_to_le_bytes(length);
    write_memory(memory, out_size_ptr as usize, length_bytes.as_slice())
}

/// What a `ping` call asks for: an IPv4 address and how many attempts.
#[derive(Debug, Clone, Copy)]
pub struct PingRequest {
    pub octets: [u8; 4],
    /// Attempts, between 1 and 50.
    pub count: i32,
}

/// The number of attempts kept between 1 and 50.
pub open spec fn clamp_attempts(n: i32) -> i32 {
    if n < 1 {
        1
    } else if n > 50 {
        50
    } else {
        n
    }
}

/// Reads the arguments of `ping`: the four octets of the address (the low
/// byte of each argument) and the number of attempts, kept between 1 and 50.
pub fn ping_request(args: &[::wasmtime::Val]) -> (r: Result<PingRequest, String>)
    ensures
        arg_i32(args@, 0) is None ==> (r matches Err(e) && e@ == "ping: arg0 missing or invalid"@),
        arg_i32(args@, 0) is Some && arg_i32(args@, 1) is None ==> (r matches Err(e) && e@
            == "ping: arg1 missing or invalid"@),
        arg_i32(args@, 0) is Some && arg_i32(args@, 1) is Some && arg_i32(args@, 2) is None ==> (
        r matches Err(e) && e@ == "ping: arg2 missing or invalid"@),
        arg_i32(args@, 0) is Some && arg_i32(args@, 1) is Some && arg_i32(args@, 2) is Some
            && arg_i32(args@, 3) is None ==> (r matches Err(e) && e@ == "ping: arg3 missing or invalid"@),
        arg_i32(args@, 0) is Some && arg_i32(args@, 1) is Some && arg_i32(args@, 2) is Some
            && arg_i32(args@, 3) is Some && arg_i32(args@, 4) is None ==> (r matches Err(e) && e@
            == "ping: arg4 missing or invalid"@),
        r matches Ok(p) ==> p.octets@ == seq![
            arg_i32(args@, 0)->0 as u8,
            arg_i32(args@, 1)->0 as u8,
            arg_i32(args@, 2)->0 as u8,
            arg_i32(args@, 3)->0 as u8,
        ] && p.count == clamp_attempts(arg_i32(args@, 4)->0),
        (arg_i32(args@, 0) is Some && arg_i32(args@, 1) is Some && arg_i32(args@, 2) is Some
            && arg_i32(args@, 3) is Some && arg_i32(args@, 4) is Some) ==> r is Ok,
{
    let a = match i32_arg(args, 0) {
        Some(v) => v,
        None => {
            return Err("ping: arg0 missing or invalid".to_string());
        },
    };
    let b = match i32_arg(args, 1) {
        Some(v) => v,
        None => {
            return Err("ping: arg1 missing or invalid".to_string());
        },
    };
    let c = match i32_arg(args, 2) {
        Some(v) => v,
        None => {
            return Err("ping: arg2 missing or invalid".to_string());
        },
    };
    let d = match i32_arg(args, 3) {
        Some(v) => v,
        None => {
            return Err("ping: arg3 missing or invalid".to_string());
        },
    };
    let mut count = match i32_arg(args, 4) {
        Some(v) => v,
        None => {
            return Err("ping: arg4 missing or invalid".to_string());
        },
    };
    if count < 1 {
        count = 1;
    }
    if count > 50 {
        count = 50;
    }
    #[verifier::truncate]
    let o0 = a as u8;
    #[verifier::truncate]
    let o1 = b as u8;
    #[verifier::truncate]
    let o2 = c as u8;
    #[verifier::truncate]
    let o3 = d as u8;
    let octets = [o0, o1, o2, o3];
    assert(octets@ =~= seq![o0, o1, o2, o3]);
    Ok(PingRequest { octets, count })
}

/// Reading the place just written gives back what was written; the memory
/// keeps its size and every other byte.
pub proof fn law_memory_write_then_read(mem: Seq<u8>, offset: int, data: Seq<u8>)
    requires
        memory_written(mem, offset, data) is Some,
    ensures
        memory_written(mem, offset, data)->0.len() == mem.len(),
        memory_written(mem, offset, data)->0.subrange(offset, offset + data.len()) == data,
        forall|k: int|
            0 <= k < mem.len() && !(offset <= k < offset + data.len()) ==> #[trigger] memory_written(
                mem,
                offset,
                data,
            )->0[k] == mem[k],
{
    let m = memory_written(mem, offset, data)->0;
    assert(m.subrange(offset, offset + data.len()) =~= data);
}

} // verus!
