//! A request to run a WebAssembly function, as the supervisor records it.
use crate::strmap::StrMap;
use sha2::Digest;
use vstd::prelude::*;
use vstd::utf8::encode_utf8;

verus! {

/// A point in time: whole seconds since the Unix epoch and the nanoseconds
/// past that second.
#[derive(Debug, Clone, Copy)]
pub struct Timestamp {
    pub secs: i64,
    pub nanos: u32,
}

/// The lower-case hexadecimal digit for `d < 16`.
pub open spec fn hex_lower_digit(d: u8) -> char {
    if d < 10 {
        (48 + d) as char
    } else {
        (87 + d) as char
    }
}

/// Each byte as two lower-case hexadecimal digits, high nibble first.
pub open spec fn hex_lower(bytes: Seq<u8>) -> Seq<char>
    decreases bytes.len(),
{
    if bytes.len() == 0 {
        Seq::empty()
    } else {
        seq![hex_lower_digit(bytes[0] / 16), hex_lower_digit(bytes[0] % 16)] + hex_lower(
            bytes.drop_first(),
        )
    }
}

/// Whether `c` is one of `0-9`, `a-f`.
pub open spec fn is_lower_hex_char(c: char) -> bool {
    ('0' <= c && c <= '9') || ('a' <= c && c <= 'f')
}

/// The SHA-256 digest of `data`.
pub uninterp spec fn sha256_digest(data: Seq<u8>) -> Seq<u8>;

/// Hashes `data` with `sha2::Sha256`, whose output is 32 bytes long.
#[verifier::external_body]
fn sha256(data: &[u8]) -> (r: Vec<u8>)
    ensures
        r@ == sha256_digest(data@),
        r@.len() == 32,
{
    let mut hasher = sha2::Sha256::new();
    hasher.update(data);
    hasher.finalize().to_vec()
}

/// Encodes `data` with `hex::encode`, which writes each byte as two
/// lower-case hexadecimal digits, high nibble first.
#[verifier::external_body]
fn hex_encode(data: &[u8]) -> (r: String)
    ensures
        r@ == hex_lower(data@),
{
    hex::encode(data)
}

/// The current time in RFC 3339 form, from `chrono::Utc::now().to_rfc3339()`.
/// It depends on the clock, so nothing is stated of it.
#[verifier::external_body]
fn now_rfc3339() -> (r: String) {
    chrono::Utc::now().to_rfc3339()
}

/// The text that is hashed into a request id:
/// `{deployment}:{module}:{function}:{time}`.
pub open spec fn request_key(
    deployment_id: Seq<char>,
    module_name: Seq<char>,
    function_name: Seq<char>,
    time: Seq<char>,
) -> Seq<char> {
    deployment_id + ":"@ + module_name + ":"@ + function_name + ":"@ + time
}

/// A request id: the SHA-256 digest of the request key, in lower-case hex.
pub open spec fn spec_request_id(
    deployment_id: Seq<char>,
    module_name: Seq<char>,
    function_name: Seq<char>,
    time: Seq<char>,
) -> Seq<char> {
    hex_lower(sha256_digest(encode_utf8(request_key(deployment_id, module_name, function_name, time))))
}

/// The request id of a call of `function_name` in `module_name` of
/// `deployment_id` made at `time`.
pub fn request_id_for(deployment_id: &str, module_name: &str, function_name: &str, time: &str) -> (r:
    String)
    ensures
        r@ == spec_request_id(deployment_id@, module_name@, function_name@, time@),
{
    let mut key = deployment_id.to_string();
    key.append(":");
    key.append(module_name);
    key.append(":");
    key.append(function_name);
    key.append(":");
    key.append(time);
    let digest = sha256(key.as_str().as_bytes());
    hex_encode(digest.as_slice())
}

/// Two hex digits for every byte.
pub proof fn lemma_hex_lower_len(bytes: Seq<u8>)
    ensures
        hex_lower(bytes).len() == 2 * bytes.len(),
    decreases bytes.len(),
{
    if bytes.len() > 0 {
        lemma_hex_lower_len(bytes.drop_first());
    }
}

/// Every character of a hex encoding is a lower-case hex digit.
pub proof fn lemma_hex_lower_chars(bytes: Seq<u8>)
    ensures
        forall|i: int| 0 <= i < hex_lower(bytes).len() ==> is_lower_hex_char(#[trigger] hex_lower(bytes)[i]),
    decreases bytes.len(),
{
    if bytes.len() > 0 {
        lemma_hex_lower_chars(bytes.drop_first());
        let b = bytes[0];
        assert(b / 16 < 16 && b % 16 < 16);
        let head = seq![hex_lower_digit(b / 16), hex_lower_digit(b % 16)];
        assert(is_lower_hex_char(head[0]) && is_lower_hex_char(head[1]));
        let rest = hex_lower(bytes.drop_first());
        assert forall|i: int| 0 <= i < hex_lower(bytes).len() implies is_lower_hex_char(
            #[trigger] hex_lower(bytes)[i],
        ) by {
            if i >= 2 {
                assert(hex_lower(bytes)[i] == rest[i - 2]);
            }
        }
    }
}

/// Every request id is 64 characters long, all lower-case hex digits.
pub proof fn law_request_id_is_hex_digest(
    deployment_id: Seq<char>,
    module_name: Seq<char>,
    function_name: Seq<char>,
    time: Seq<char>,
)
    requires
        sha256_digest(encode_utf8(request_key(deployment_id, module_name, function_name, time))).len()
            == 32,
    ensures
        spec_request_id(deployment_id, module_name, function_name, time).len() == 64,
        forall|i: int|
            0 <= i < 64 ==> is_lower_hex_char(
                #[trigger] spec_request_id(deployment_id, module_name, function_name, time)[i],
            ),
{
    let d = sha256_digest(encode_utf8(request_key(deployment_id, module_name, function_name, time)));
    lemma_hex_lower_len(d);
    lemma_hex_lower_chars(d);
}

/// One invocation of a WebAssembly function: what was asked, when, and how
/// it ended.
#[derive(Debug, Clone)]
pub struct RequestEntry {
    /// Unique identifier of the request.
    pub request_id: String,
    /// Deployment the request belongs to.
    pub deployment_id: String,
    /// Module whose function is run.
    pub module_name: String,
    /// Function run in the module.
    pub function_name: String,
    /// HTTP method of the request.
    pub method: String,
    /// Query or JSON arguments of the function.
    pub request_args: serde_json::Value,
    /// Mount path to local file path of the input files.
    pub request_files: StrMap<String>,
    /// When the request was queued.
    pub work_queued_at: Timestamp,
    /// The result, once there is one.
    pub result: Option<serde_json::Value>,
    /// Links to the output files.
    pub outputs: Vec<String>,
    /// Whether the execution succeeded.
    pub success: bool,
    /// Which step of a chain of calls this request runs.
    pub step_index: usize,
}

impl RequestEntry {
    /// A new, not yet executed request whose id is the hash of its deployment,
    /// module and function and of the time at which it was made.
    pub fn new(
        deployment_id: String,
        module_name: String,
        function_name: String,
        method: String,
        request_args: serde_json::Value,
        request_files: StrMap<String>,
        work_queued_at: Timestamp,
        step_index: usize,
    ) -> (r: Self)
        ensures
            exists|time: Seq<char>|
                r.request_id@ == spec_request_id(
                    deployment_id@,
                    module_name@,
                    function_name@,
                    time,
                ),
            r.deployment_id == deployment_id,
            r.module_name == module_name,
            r.function_name == function_name,
            r.method == method,
            r.request_args == request_args,
            r.request_files@ == request_files@,
            r.work_queued_at == work_queued_at,
            r.result is None,
            r.outputs@.len() == 0,
            !r.success,
            r.step_index == step_index,
    {
        let mut entry = RequestEntry {
            request_id: String::new(),
            deployment_id,
            module_name,
            function_name,
            method,
            request_args,
            request_files,
            work_queued_at,
            result: None,
            outputs: Vec::new(),
            success: false,
            step_index,
        };
        entry.init_request_id();
        entry
    }

    /// Sets the request id from the identifiers and the current time.
    fn init_request_id(&mut self)
        ensures
            exists|time: Seq<char>|
                final(self).request_id@ == spec_request_id(
                    old(self).deployment_id@,
                    old(self).module_name@,
                    old(self).function_name@,
                    time,
                ),
            final(self).deployment_id == old(self).deployment_id,
            final(self).module_name == old(self).module_name,
            final(self).function_name == old(self).function_name,
            final(self).method == old(self).method,
            final(self).request_args == old(self).request_args,
            final(self).request_files == old(self).request_files,
            final(self).work_queued_at == old(self).work_queued_at,
            final(self).result == old(self).result,
            final(self).outputs == old(self).outputs,
            final(self).success == old(self).success,
            final(self).step_index == old(self).step_index,
    {
        let time = now_rfc3339();
        let id = request_id_for(
            self.deployment_id.as_str(),
            self.module_name.as_str(),
            self.function_name.as_str(),
            time.as_str(),
        );
        self.request_id = id;
    }
}

} // verus!
