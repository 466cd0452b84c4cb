//! Host functions that WebAssembly modules call through their runtime.
//!
//! Each remote function holds the runtime of the calling module and works on
//! that module's linear memory: it reads arguments there and writes results
//! back.
use crate::wasm_api::{opt_name, opt_string, IWasmRuntime, WasmValue};
use vstd::bytes::{spec_u32_from_le_bytes, spec_u32_to_le_bytes, u32_from_le_bytes, u32_to_le_bytes};
use vstd::prelude::*;
use crate::text::{decimal, usize_to_string, utf8_to_string};
use vstd::utf8::{decode_utf8, valid_utf8};

verus! {

/// The picture that `capture_image` hands out: the start of a JPEG file.
pub open spec fn fake_jpeg() -> Seq<u8> {
    seq![0xFFu8, 0xD8u8, 0xFFu8, 0x00u8, 0x11u8, 0x22u8, 0x33u8]
}

/// Captures an image.  This build has no camera and returns the bytes of
/// [`fake_jpeg`].
pub fn capture_image() -> (r: Result<Vec<u8>, String>)
    ensures
        r matches Ok(v) && v@ == fake_jpeg(),
{
    let image = vec![0xFFu8, 0xD8, 0xFF, 0x00, 0x11, 0x22, 0x33];
    assert(image@ =~= fake_jpeg());
    Ok(image)
}

/// A function that modules can import from the host.
pub trait IRemoteFunction {
    type Runtime;

    /// The runtime whose modules call the function.
    fn runtime(&self) -> &Self::Runtime;
}

/// What every remote function holds: the runtime of the calling modules.
pub struct RemoteFunctionBase<R> {
    runtime: R,
}

impl<R> RemoteFunctionBase<R> {
    /// The runtime held.
    pub closed spec fn spec_runtime(self) -> R {
        self.runtime
    }

    pub fn new(runtime: R) -> (r: Self)
        ensures
            r.spec_runtime() == runtime,
    {
        Self { runtime }
    }

    pub fn runtime(&self) -> (r: &R)
        ensures
            *r == self.spec_runtime(),
    {
        &self.runtime
    }

    fn runtime_mut(&mut self) -> (r: &mut R)
        ensures
            *r == old(self).spec_runtime(),
            final(self).spec_runtime() == *final(r),
    {
        &mut self.runtime
    }
}

/// The name of the module that host functions act on, as an owned string.
fn current_module<R: IWasmRuntime>(runtime: &R) -> (r: Option<String>)
    ensures
        opt_string(r) == runtime.spec_current_module(),
{
    match runtime.current_module_name() {
        Some(name) => Some(name.to_string()),
        None => None,
    }
}

/// The borrowed form of an optional module name.
fn as_name(name: &Option<String>) -> (r: Option<&str>)
    ensures
        match r {
            Some(s) => name matches Some(n) && s@ == n@,
            None => name is None,
        },
        opt_name(r) == opt_string(*name),
{
    match name {
        Some(n) => Some(n.as_str()),
        None => None,
    }
}

/// The message to print for `data` read from memory: the text if it is
/// UTF-8, a placeholder if it is not, or the error that reading gave.
pub open spec fn spec_print_message(data: Seq<u8>, error: Option<Seq<char>>) -> Seq<char> {
    match error {
        Some(e) => e,
        None => if valid_utf8(data) {
            decode_utf8(data)
        } else {
            "[Invalid UTF-8 data]"@
        },
    }
}

/// The message that printing `data` shows, given what reading it gave.
pub fn print_message(data: Vec<u8>, error: Option<String>) -> (r: String)
    ensures
        r@ == spec_print_message(
            data@,
            match error {
                Some(e) => Some(e@),
                None => None,
            },
        ),
{
    match error {
        None => match utf8_to_string(data) {
            Some(s) => s,
            None => "[Invalid UTF-8 data]".to_string(),
        },
        Some(e) => e,
    }
}

/// Prints text from a module's memory.
pub struct PrintFunction<R> {
    base: RemoteFunctionBase<R>,
}

impl<R> PrintFunction<R> {
    /// The runtime held.
    pub closed spec fn spec_runtime(self) -> R {
        self.base.spec_runtime()
    }
}

impl<R: IWasmRuntime> PrintFunction<R> {
    pub fn new(runtime: R) -> (r: Self)
        ensures
            r.spec_runtime() == runtime,
    {
        Self { base: RemoteFunctionBase::new(runtime) }
    }

    /// The text that the module asks to print: `length` bytes at `pointer`
    /// of its memory, decoded as in [`print_message`].
    pub fn print_impl(&self, pointer: i32, length: i32) -> (message: String)
        ensures
            message@ == spec_print_message(
                self.spec_runtime().spec_read(
                    pointer as usize,
                    length as usize,
                    self.spec_runtime().spec_current_module(),
                ).0,
                self.spec_runtime().spec_read(
                    pointer as usize,
                    length as usize,
                    self.spec_runtime().spec_current_module(),
                ).1,
            ),
    {
        let module_name = current_module(self.base.runtime());
        let (data, error) = self.base.runtime().read_from_memory(
            pointer as usize,
            length as usize,
            as_name(&module_name),
        );
        print_message(data, error)
    }
}

impl<R> IRemoteFunction for PrintFunction<R> {
    type Runtime = R;

    fn runtime(&self) -> (r: &R)
        ensures
            *r == self.spec_runtime(),
    {
        self.base.runtime()
    }
}

/// The pointer that an `alloc` call gave: an `i64` result, or -1 for a
/// result of another type.
pub open spec fn spec_alloc_pointer(result: Option<WasmValue>) -> Option<i64> {
    match result {
        Some(WasmValue::I64(p)) => Some(p),
        Some(_) => Some(-1i64),
        None => None,
    }
}

/// The pointer that an `alloc` call gave (see [`spec_alloc_pointer`]).
pub fn alloc_pointer(result: Option<WasmValue>) -> (r: Option<i64>)
    ensures
        r == spec_alloc_pointer(result),
{
    match result {
        Some(WasmValue::I64(p)) => Some(p),
        Some(_) => Some(-1),
        None => None,
    }
}

/// The error for an allocation that gave a negative pointer.
pub open spec fn allocation_error(len: nat) -> Seq<char> {
    "Unable to allocate "@ + decimal(len) + " bytes!"@
}

/// The error, if any, of taking a picture of dynamic size: `before` is the
/// runtime that allocates the memory, `after` the one that it leaves, on
/// which the picture, its pointer at `out_ptr_ptr` and its length at
/// `out_size_ptr` are written, in that order, until a write fails.
pub open spec fn spec_take_image_dynamic_error<R: IWasmRuntime>(
    before: R,
    after: R,
    out_ptr_ptr: i32,
    out_size_ptr: i32,
) -> Option<Seq<char>> {
    let img = fake_jpeg();
    let module_name = after.spec_current_module();
    match spec_alloc_pointer(
        before.spec_run(
            "alloc"@,
            seq![WasmValue::I64(img.len() as i64)],
            before.spec_current_module(),
        ),
    ) {
        None => Some("Allocation failed"@),
        Some(p) => if p < 0 {
            Some(allocation_error(img.len()))
        } else {
            match after.spec_write(p as usize, img, module_name) {
                Some(e) => Some(e),
                None => match after.spec_write(
                    out_ptr_ptr as usize,
                    spec_u32_to_le_bytes(p as u32),
                    module_name,
                ) {
                    Some(e) => Some(e),
                    None => after.spec_write(
                        out_size_ptr as usize,
                        spec_u32_to_le_bytes(img.len() as u32),
                        module_name,
                    ),
                },
            }
        },
    }
}

/// Takes a picture whose size the module learns afterwards.
pub struct TakeImageDynamicSize<R> {
    base: RemoteFunctionBase<R>,
}

impl<R> TakeImageDynamicSize<R> {
    /// The runtime held.
    pub closed spec fn spec_runtime(self) -> R {
        self.base.spec_runtime()
    }
}

impl<R: IWasmRuntime> TakeImageDynamicSize<R> {
    pub fn new(runtime: R) -> (r: Self)
        ensures
            r.spec_runtime() == runtime,
    {
        Self { base: RemoteFunctionBase::new(runtime) }
    }

    /// Allocates `nbytes` in the current module by calling its `alloc` function.
    fn allocate(&mut self, nbytes: i32) -> (r: Option<i64>)
        ensures
            r == spec_alloc_pointer(
                old(self).spec_runtime().spec_run(
                    "alloc"@,
                    seq![WasmValue::I64(nbytes as i64)],
                    old(self).spec_runtime().spec_current_module(),
                ),
            ),
    {
        let module_name = current_module(self.base.runtime());
        let mut params: Vec<WasmValue> = Vec::new();
        params.push(WasmValue::I64(nbytes as i64));
        assert(params@ =~= seq![WasmValue::I64(nbytes as i64)]);
        let runtime = self.base.runtime_mut();
        let result = runtime.run_function("alloc", params.as_slice(), as_name(&module_name));
        alloc_pointer(result)
    }

    /// Captures a picture, copies it into memory that the module allocates,
    /// and stores the picture's pointer at `out_ptr_ptr` and its length at
    /// `out_size_ptr`, both as 32-bit little-endian numbers.
    pub fn take_image_impl(&mut self, out_ptr_ptr: i32, out_size_ptr: i32) -> (r: Result<(), String>)
        ensures
            match r {
                Ok(_) => spec_take_image_dynamic_error(
                    old(self).spec_runtime(),
                    final(self).spec_runtime(),
                    out_ptr_ptr,
                    out_size_ptr,
                ) is None,
                Err(e) => spec_take_image_dynamic_error(
                    old(self).spec_runtime(),
                    final(self).spec_runtime(),
                    out_ptr_ptr,
                    out_size_ptr,
                ) == Some(e@),
            },
    {
        let img_data = match capture_image() {
            Ok(d) => d,
            Err(e) => {
                return Err(e);
            },
        };
        let data_len = img_data.len();
        assert(data_len == 7);
        assert((data_len as i32) as i64 == fake_jpeg().len() as i64);
        let data_ptr = match self.allocate(data_len as i32) {
            Some(p) => p,
            None => {
                return Err("Allocation failed".to_string());
            },
        };
        if data_ptr < 0 {
            let mut msg = "Unable to allocate ".to_string();
            let n = usize_to_string(data_len);
            msg.append(n.as_str());
            msg.append(" bytes!");
            return Err(msg);
        }
        let module_name = current_module(self.base.runtime());
        let maybe_err = self.base.runtime().write_to_memory(
            data_ptr as usize,
            img_data.as_slice(),
            as_name(&module_name),
        );
        if let Some(e) = maybe_err {
            return Err(e);
        }
        let pointer_bytes = u32_to_le_bytes(data_ptr as u32);
        let length_bytes = u32_to_le_bytes(data_len as u32);
        if let Some(e) = self.base.runtime().write_to_memory(
            out_ptr_ptr as usize,
            pointer_bytes.as_slice(),
            as_name(&module_name),
        ) {
            return Err(e);
        }
        if let Some(e) = self.base.runtime().write_to_memory(
            out_size_ptr as usize,
            length_bytes.as_slice(),
            as_name(&module_name),
        ) {
            return Err(e);
        }
        Ok(())
    }
}

impl<R> IRemoteFunction for TakeImageDynamicSize<R> {
    type Runtime = R;

    fn runtime(&self) -> (r: &R)
        ensures
            *r == self.spec_runtime(),
    {
        self.base.runtime()
    }
}

/// The picture cut to the size that the module declared: the first four
/// bytes of `size_bytes`, read as a little-endian number.
pub open spec fn spec_truncated_image(img: Seq<u8>, size_bytes: Seq<u8>) -> Seq<u8> {
    let declared = spec_u32_from_le_bytes(size_bytes.take(4));
    if img.len() > declared {
        img.take(declared as int)
    } else {
        img
    }
}

/// The picture cut to the declared size; an error if fewer than four bytes
/// declare it.
pub fn truncate_to_declared_size(img: &Vec<u8>, size_bytes: &Vec<u8>) -> (r: Result<Vec<u8>, String>)
    ensures
        size_bytes@.len() < 4 ==> (r matches Err(e) && e@ == "Not enough bytes to parse length"@),
        size_bytes@.len() >= 4 ==> (r matches Ok(v) && v@ == spec_truncated_image(img@, size_bytes@)),
{
    if size_bytes.len() < 4 {
        return Err("Not enough bytes to parse length".to_string());
    }
    let head = vstd::slice::slice_subrange(size_bytes.as_slice(), 0, 4);
    assert(head@ =~= size_bytes@.take(4));
    let out_len = u32_from_le_bytes(head) as usize;
    let mut truncated = img.clone();
    if img.len() > out_len {
        truncated.truncate(out_len);
    }
    assert(truncated@ =~= spec_truncated_image(img@, size_bytes@));
    Ok(truncated)
}

/// The error, if any, of taking a picture into a buffer of declared size:
/// reading the four size bytes at `size_ptr`, then writing the picture, cut
/// to that size, at `out_ptr`.
pub open spec fn spec_take_image_static_error<R: IWasmRuntime>(rt: R, out_ptr: i32, size_ptr: i32) -> Option<
    Seq<char>,
> {
    let module_name = rt.spec_current_module();
    let read = rt.spec_read(size_ptr as usize, 4, module_name);
    match read.1 {
        Some(e) => Some(e),
        None => if read.0.len() < 4 {
            Some("Not enough bytes to parse length"@)
        } else {
            rt.spec_write(out_ptr as usize, spec_truncated_image(fake_jpeg(), read.0), module_name)
        },
    }
}

/// Takes a picture into a buffer whose size the module declares.
pub struct TakeImageStaticSize<R> {
    base: RemoteFunctionBase<R>,
}

impl<R> TakeImageStaticSize<R> {
    /// The runtime held.
    pub closed spec fn spec_runtime(self) -> R {
        self.base.spec_runtime()
    }
}

impl<R: IWasmRuntime> TakeImageStaticSize<R> {
    pub fn new(runtime: R) -> (r: Self)
        ensures
            r.spec_runtime() == runtime,
    {
        Self { base: RemoteFunctionBase::new(runtime) }
    }

    /// Captures a picture and writes it to `out_ptr`, cut to the size stored
    /// as a 32-bit little-endian number at `size_ptr`.
    pub fn take_image_impl(&self, out_ptr: i32, size_ptr: i32) -> (r: Result<(), String>)
        ensures
            match r {
                Ok(_) => spec_take_image_static_error(self.spec_runtime(), out_ptr, size_ptr) is None,
                Err(e) => spec_take_image_static_error(self.spec_runtime(), out_ptr, size_ptr) == Some(e@),
            },
    {
        let img_data = match capture_image() {
            Ok(d) => d,
            Err(e) => {
                return Err(e);
            },
        };
        let module_name = current_module(self.base.runtime());
        let (out_len_bytes, err) = self.base.runtime().read_from_memory(
            size_ptr as usize,
            4,
            as_name(&module_name),
        );
        if let Some(e) = err {
            return Err(e);
        }
        let truncated = match truncate_to_declared_size(&img_data, &out_len_bytes) {
            Ok(t) => t,
            Err(e) => {
                return Err(e);
            },
        };
        let maybe_err = self.base.runtime().write_to_memory(
            out_ptr as usize,
            truncated.as_slice(),
            as_name(&module_name),
        );
        if let Some(e) = maybe_err {
            return Err(e);
        }
        Ok(())
    }
}

impl<R> IRemoteFunction for TakeImageStaticSize<R> {
    type Runtime = R;

    fn runtime(&self) -> (r: &R)
        ensures
            *r == self.spec_runtime(),
    {
        self.base.runtime()
    }
}

/// The name of a remote function read as `bytes`: their text if they are
/// UTF-8, else `<invalid-utf8>`.
pub open spec fn spec_function_name(bytes: Seq<u8>) -> Seq<char> {
    if valid_utf8(bytes) {
        decode_utf8(bytes)
    } else {
        "<invalid-utf8>"@
    }
}

/// What reading a remote call's function name and data from `rt` gives: the
/// name and the data, or the message for the first read that failed.
pub open spec fn spec_rpc_call<R: IWasmRuntime>(
    rt: R,
    func_name_ptr: i32,
    func_name_size: i32,
    data_ptr: i32,
    data_size: i32,
) -> Result<(Seq<char>, Seq<u8>), Seq<char>> {
    let module_name = rt.spec_current_module();
    let name_read = rt.spec_read(func_name_ptr as usize, func_name_size as usize, module_name);
    let data_read = rt.spec_read(data_ptr as usize, data_size as usize, module_name);
    match name_read.1 {
        Some(e) => Err("Error reading function name: "@ + e),
        None => match data_read.1 {
            Some(e) => Err("Error reading data: "@ + e),
            None => Ok((spec_function_name(name_read.0), data_read.0)),
        },
    }
}

/// Forwards a call of a module to a function on another device.
pub struct RpcCall<R> {
    base: RemoteFunctionBase<R>,
}

impl<R> RpcCall<R> {
    /// The runtime held.
    pub closed spec fn spec_runtime(self) -> R {
        self.base.spec_runtime()
    }
}

impl<R: IWasmRuntime> RpcCall<R> {
    pub fn new(runtime: R) -> (r: Self)
        ensures
            r.spec_runtime() == runtime,
    {
        Self { base: RemoteFunctionBase::new(runtime) }
    }

    /// Reads the name of the remote function and the data to send to it from
    /// the module's memory.  A name that is not UTF-8 reads as
    /// `<invalid-utf8>`; a failed read gives the message to report.
    pub fn rpc_call_impl(
        &self,
        func_name_ptr: i32,
        func_name_size: i32,
        data_ptr: i32,
        data_size: i32,
    ) -> (r: Result<(String, Vec<u8>), String>)
        ensures
            match r {
                Ok((name, data)) => spec_rpc_call(
                    self.spec_runtime(),
                    func_name_ptr,
                    func_name_size,
                    data_ptr,
                    data_size,
                ) == Ok::<(Seq<char>, Seq<u8>), Seq<char>>((name@, data@)),
                Err(e) => spec_rpc_call(
                    self.spec_runtime(),
                    func_name_ptr,
                    func_name_size,
                    data_ptr,
                    data_size,
                ) == Err::<(Seq<char>, Seq<u8>), Seq<char>>(e@),
            },
    {
        let module_name = current_module(self.base.runtime());
        let (func_name_bytes, err1) = self.base.runtime().read_from_memory(
            func_name_ptr as usize,
            func_name_size as usize,
            as_name(&module_name),
        );
        if let Some(e) = err1 {
            let mut msg = "Error reading function name: ".to_string();
            msg.append(e.as_str());
            return Err(msg);
        }
        let func_name = match utf8_to_string(func_name_bytes) {
            Some(s) => s,
            None => "<invalid-utf8>".to_string(),
        };
        let (data_bytes, err2) = self.base.runtime().read_from_memory(
            data_ptr as usize,
            data_size as usize,
            as_name(&module_name),
        );
        if let Some(e) = err2 {
            let mut msg = "Error reading data: ".to_string();
            msg.append(e.as_str());
            return Err(msg);
        }
        Ok((func_name, data_bytes))
    }
}

impl<R> IRemoteFunction for RpcCall<R> {
    type Runtime = R;

    fn runtime(&self) -> (r: &R)
        ensures
            *r == self.spec_runtime(),
    {
        self.base.runtime()
    }
}

/// The WASI error number for an invalid argument.
pub const EINVAL: i32 = 28;

/// Fills a buffer of the module with random bytes.
pub struct RandomGet<R> {
    base: RemoteFunctionBase<R>,
}

impl<R> RandomGet<R> {
    /// The runtime held.
    pub closed spec fn spec_runtime(self) -> R {
        self.base.spec_runtime()
    }
}

impl<R: IWasmRuntime> RandomGet<R> {
    pub fn new(runtime: R) -> (r: Self)
        ensures
            r.spec_runtime() == runtime,
    {
        Self { base: RemoteFunctionBase::new(runtime) }
    }

    /// Writes the first `size` of `random_bytes` at `buf_ptr`; 0 on success,
    /// [`EINVAL`] when the write fails.
    pub fn random_get_impl(&self, buf_ptr: i32, size: i32, random_bytes: Vec<u8>) -> (r: i32)
        requires
            0 <= size <= random_bytes@.len(),
        ensures
            r == (if self.spec_runtime().spec_write(
                buf_ptr as usize,
                random_bytes@.take(size as int),
                self.spec_runtime().spec_current_module(),
            ) is Some {
                EINVAL
            } else {
                0
            }),
    {
        let mut truncated = random_bytes;
        truncated.truncate(size as usize);
        assert(truncated@ =~= random_bytes@.take(size as int));
        let module_name = current_module(self.base.runtime());
        if let Some(_err) = self.base.runtime().write_to_memory(
            buf_ptr as usize,
            truncated.as_slice(),
            as_name(&module_name),
        ) {
            return EINVAL;
        }
        0
    }
}

impl<R> IRemoteFunction for RandomGet<R> {
    type Runtime = R;

    fn runtime(&self) -> (r: &R)
        ensures
            *r == self.spec_runtime(),
    {
        self.base.runtime()
    }
}

/// Law: the little-endian numbers that the dynamic-size picture function
/// writes read back, as the static-size one reads its size, to the same number.
pub proof fn law_le_bytes_round_trip(x: u32)
    ensures
        spec_u32_to_le_bytes(x).len() == 4,
        spec_u32_from_le_bytes(spec_u32_to_le_bytes(x).take(4)) == x,
{
    vstd::bytes::lemma_auto_spec_u32_to_from_le_bytes();
    assert(spec_u32_to_le_bytes(x).take(4) =~= spec_u32_to_le_bytes(x));
}

} // verus!
