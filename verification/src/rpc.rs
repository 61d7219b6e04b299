use vstd::prelude::*;
use vstd::string::{StringExecFns, StringSliceAdditionalSpecFns};
use vstd::utf8::encode_utf8;

use crate::encoding::{base64_decoded, base64_encode, base64_len, base64_standard, lemma_base64_roundtrip};

verus! {

/// User name and password presented to the node.
#[derive(Clone, Debug)]
pub struct Auth<'a> {
    username: &'a str,
    password: &'a str,
}

impl<'a> View for Auth<'a> {
    type V = (Seq<char>, Seq<char>);

    closed spec fn view(&self) -> (Seq<char>, Seq<char>) {
        (self.username@, self.password@)
    }
}

/// The bytes `user:password` (UTF-8) that HTTP basic authentication encodes.
pub open spec fn credential_bytes(auth: (Seq<char>, Seq<char>)) -> Seq<u8> {
    encode_utf8(auth.0) + seq![58u8] + encode_utf8(auth.1)
}

/// Whether the credentials are short enough for their base64 text to fit
/// in memory (`usize`).
pub open spec fn credentials_fit(auth: (Seq<char>, Seq<char>)) -> bool {
    base64_len(credential_bytes(auth).len() as int) <= usize::MAX
}

/// The value of the `Authorization` header: `Basic ` and the base64 text of
/// `user:password`.
pub open spec fn basic_authorization(auth: (Seq<char>, Seq<char>)) -> Seq<char> {
    "Basic "@ + base64_standard(credential_bytes(auth))
}

/// The `Authorization` header carries the credentials in full: after
/// `Basic `, its base64 text reads back as the whole user name, `:`, and
/// the whole password.
pub proof fn lemma_authorization_carries_credentials(username: Seq<char>, password: Seq<char>)
    ensures
        basic_authorization((username, password)).take(6) == "Basic "@,
        base64_decoded(basic_authorization((username, password)).skip(6)) == encode_utf8(username)
            + seq![58u8] + encode_utf8(password),
{
    reveal_strlit("Basic ");
    let bytes = encode_utf8(username) + seq![58u8] + encode_utf8(password);
    assert(credential_bytes((username, password)) =~= bytes);
    lemma_base64_roundtrip(bytes);
    assert(basic_authorization((username, password)).take(6) =~= "Basic "@);
    assert(basic_authorization((username, password)).skip(6) =~= base64_standard(bytes));
}

impl<'a> Auth<'a> {
    /// Gives back the user name and the password, in that order.
    pub fn get_user_pass(self) -> (res: (&'a str, &'a str))
        ensures
            (res.0@, res.1@) == self@,
    {
        (self.username, self.password)
    }

    /// Credentials made of the given user name and password.
    pub fn new(username: &'a str, password: &'a str) -> (res: Auth<'a>)
        ensures
            res@ == (username@, password@),
    {
        Auth { username, password }
    }
}

/// Appends every byte of `bytes` to `out`.
fn push_all(out: &mut Vec<u8>, bytes: &[u8])
    ensures
        final(out)@ == old(out)@ + bytes@,
{
    let ghost start = out@;
    let mut i: usize = 0;
    while i < bytes.len()
        invariant
            i <= bytes@.len(),
            out@ == start + bytes@.subrange(0, i as int),
        decreases bytes@.len() - i,
    {
        out.push(bytes[i]);
        i = i + 1;
    }
    assert(bytes@.subrange(0, bytes@.len() as int) == bytes@);
}

/// The parameters of a request, each a JSON string or a JSON boolean.
#[derive(Clone, Debug, PartialEq, Eq)]
pub enum RpcParam {
    Text(String),
    Flag(bool),
}

/// A JSON-RPC 2.0 request as the node receives it: its fields are written
/// in this order (`jsonrpc`, `method`, `params`, `id`).
#[derive(Debug)]
pub struct JsonRpcRequest {
    pub jsonrpc: String,
    pub method: String,
    pub params: Vec<RpcParam>,
    pub id: u64,
}

/// `req` is the request for `method` with `params`: version `2.0`, id 1.
pub open spec fn is_request(req: JsonRpcRequest, method: Seq<char>, params: Seq<RpcParam>) -> bool {
    &&& req.jsonrpc@ == "2.0"@
    &&& req.method@ == method
    &&& req.params@ == params
    &&& req.id == 1
}

impl JsonRpcRequest {
    /// The request for `method` with `params`; every request carries the
    /// protocol version `2.0` and the id 1.
    pub fn new(method: &str, params: Vec<RpcParam>) -> (res: JsonRpcRequest)
        ensures
            is_request(res, method@, params@),
    {
        JsonRpcRequest {
            jsonrpc: String::from_str("2.0"),
            method: String::from_str(method),
            params,
            id: 1,
        }
    }
}

/// The error object of a JSON-RPC answer.
#[derive(Debug, Clone)]
pub struct JsonRpcError {
    code: i32,
    message: String,
}

impl View for JsonRpcError {
    type V = (i32, Seq<char>);

    closed spec fn view(&self) -> (i32, Seq<char>) {
        (self.code, self.message@)
    }
}

/// A JSON-RPC answer: a result, an error, and the id of the request.
#[derive(Debug)]
pub struct JsonRpcResult<T> {
    result: Option<T>,
    error: Option<JsonRpcError>,
    id: u64,
}

impl<T> JsonRpcResult<T> {
    /// The `result` member of the answer.
    pub closed spec fn result_member(self) -> Option<T> {
        self.result
    }

    /// The `error` member of the answer.
    pub closed spec fn error_member(self) -> Option<JsonRpcError> {
        self.error
    }

    /// The `id` member of the answer.
    pub closed spec fn id_member(self) -> u64 {
        self.id
    }

    /// The answer with the given members.
    pub fn new(result: Option<T>, error: Option<JsonRpcError>, id: u64) -> (res: JsonRpcResult<T>)
        ensures
            res.result_member() == result,
            res.error_member() == error,
            res.id_member() == id,
    {
        JsonRpcResult { result, error, id }
    }

    /// Splits the answer into its members.
    pub fn into_parts(self) -> (res: (Option<T>, Option<JsonRpcError>, u64))
        ensures
            res == (self.result_member(), self.error_member(), self.id_member()),
    {
        (self.result, self.error, self.id)
    }

    /// The result the node gave, or the error it gave in its place (which
    /// may be absent too).
    pub fn result_or_error(self) -> (res: Result<T, Option<JsonRpcError>>)
        ensures
            res == (match self.result_member() {
                Some(r) => Ok(r),
                None => Err(self.error_member()),
            }),
    {
        match self.result {
            Some(r) => Ok(r),
            None => Err(self.error),
        }
    }

    /// The result the node gave; an answer without one is the error
    /// `Other("Result not found")`.
    pub fn into_result(self) -> (res: Result<T, RpcError>)
        ensures
            self.result_member() matches Some(r) ==> res == Ok::<T, RpcError>(r),
            self.result_member() is None ==> (res matches Err(e) && is_missing_result(e)),
    {
        match self.result {
            Some(r) => Ok(r),
            None => Err(RpcError::Other(String::from_str("Result not found"))),
        }
    }
}

impl JsonRpcError {
    /// An error object with the given code and message.
    pub fn new(code: i32, message: String) -> (res: JsonRpcError)
        ensures
            res@ == (code, message@),
    {
        JsonRpcError { code, message }
    }

    /// The code of the error.
    pub fn code(&self) -> (res: i32)
        ensures
            res == self@.0,
    {
        self.code
    }

    /// The message of the error.
    pub fn message(&self) -> (res: &str)
        ensures
            res@ == self@.1,
    {
        self.message.as_str()
    }

    /// A copy of this error object.
    fn duplicate(&self) -> (res: JsonRpcError)
        ensures
            res == *self,
    {
        JsonRpcError { code: self.code, message: self.message.clone() }
    }

    /// An answer that carries this error, no result, and the given id.
    pub fn to_rpc_result(&self, id: u64) -> (res: JsonRpcResult<JsonRpcError>)
        ensures
            res.result_member() is None,
            res.error_member() == Some(*self),
            res.id_member() == id,
    {
        JsonRpcResult { result: None, error: Some(self.duplicate()), id }
    }
}

/// Why a call to the node failed.
#[derive(Debug)]
pub enum RpcError {
    /// The node answered with an error, or its answer could not be read.
    JsonRpc(JsonRpcResult<JsonRpcError>),
    /// A value could not be converted to or from JSON.
    Deserialization(String),
    /// The HTTP exchange failed.
    Http(String),
    /// Anything else.
    Other(String),
}

/// `e` is the error for an answer that has no result.
pub open spec fn is_missing_result(e: RpcError) -> bool {
    e matches RpcError::Other(m) && m@ == "Result not found"@
}

/// `e` is the error for an answer that could not be read, `detail`
/// describing why: an answer with the id 1, no result, and the error
/// object of code -1 and message `Deserialization error <detail>`.
pub open spec fn is_unreadable_answer(e: RpcError, detail: Seq<char>) -> bool {
    &&& e matches RpcError::JsonRpc(r)
    &&& r.result_member() is None
    &&& r.id_member() == 1
    &&& r.error_member() matches Some(err) && err@ == (-1i32, "Deserialization error "@ + detail)
}

impl From<JsonRpcResult<JsonRpcError>> for RpcError {
    fn from(error: JsonRpcResult<JsonRpcError>) -> (res: Self) {
        RpcError::JsonRpc(error)
    }
}

impl vstd::std_specs::convert::FromSpecImpl<JsonRpcResult<JsonRpcError>> for RpcError {
    open spec fn obeys_from_spec() -> bool {
        true
    }

    open spec fn from_spec(error: JsonRpcResult<JsonRpcError>) -> Self {
        RpcError::JsonRpc(error)
    }
}

/// The error for an answer that could not be read, `detail` saying why.
pub fn unreadable_answer(detail: &str) -> (res: RpcError)
    ensures
        is_unreadable_answer(res, detail@),
{
    let message = String::from_str("Deserialization error ").concat(detail);
    let error = JsonRpcError { code: -1, message };
    RpcError::from(error.to_rpc_result(1))
}

/// Whether an HTTP status code reports success (200 to 299).
pub fn is_success_status(status: u16) -> (res: bool)
    ensures
        res == (200 <= status < 300),
{
    200 <= status && status < 300
}

/// The outcome of a call whose HTTP status was a success: the answer, if
/// the body could be read as one, else the error for an unreadable answer
/// (`parsed` then holds the reason).
pub fn success_response<T>(parsed: Result<JsonRpcResult<T>, String>) -> (res: Result<JsonRpcResult<T>, RpcError>)
    ensures
        parsed matches Ok(r) ==> res == Ok::<JsonRpcResult<T>, RpcError>(r),
        parsed matches Err(detail) ==> (res matches Err(e) && is_unreadable_answer(e, detail@)),
{
    match parsed {
        Ok(r) => Ok(r),
        Err(detail) => Err(unreadable_answer(detail.as_str())),
    }
}

/// The error of a call whose HTTP status was not a success: the node's
/// error answer, if the body could be read as one, else the error for an
/// unreadable answer (`parsed` then holds the reason).
pub fn failure_response(parsed: Result<JsonRpcResult<JsonRpcError>, String>) -> (res: RpcError)
    ensures
        parsed matches Ok(r) ==> res == RpcError::JsonRpc(r),
        parsed matches Err(detail) ==> is_unreadable_answer(res, detail@),
{
    match parsed {
        Ok(r) => RpcError::from(r),
        Err(detail) => unreadable_answer(detail.as_str()),
    }
}

/// A client of the node at `url`, presenting `auth`.
#[derive(Clone, Debug)]
pub struct RpcClient<'a> {
    url: &'a str,
    auth: Auth<'a>,
}

impl<'a> View for RpcClient<'a> {
    type V = (Seq<char>, (Seq<char>, Seq<char>));

    closed spec fn view(&self) -> (Seq<char>, (Seq<char>, Seq<char>)) {
        (self.url@, self.auth@)
    }
}

impl<'a> RpcClient<'a> {
    /// A client of the node at `url`, presenting `auth`.
    pub fn new(url: &'a str, auth: Auth<'a>) -> (res: RpcClient<'a>)
        ensures
            res@ == (url@, auth@),
    {
        RpcClient { url, auth }
    }

    /// The address of the node.
    pub fn url(&self) -> (res: &'a str)
        ensures
            res@ == self@.0,
    {
        self.url
    }

    /// The credentials that the client presents.
    pub fn auth(&self) -> (res: Auth<'a>)
        ensures
            res@ == self@.1,
    {
        Auth { username: self.auth.username, password: self.auth.password }
    }

    /// Whether the base64 text of the credentials fits in memory, as
    /// `authorization` needs.
    pub fn authorization_fits(&self) -> (res: bool)
        ensures
            res == credentials_fit(self@.1),
    {
        let user_len = self.auth.username.as_bytes().len() as u128;
        let pass_len = self.auth.password.as_bytes().len() as u128;
        let total = user_len + 1 + pass_len;
        assert(total == credential_bytes(self@.1).len());
        4 * ((total + 2) / 3) <= usize::MAX as u128
    }

    /// The value of the `Authorization` header that each request carries.
    pub fn authorization(&self) -> (res: String)
        requires
            credentials_fit(self@.1),
        ensures
            res@ == basic_authorization(self@.1),
            res@.take(6) == "Basic "@,
            base64_decoded(res@.skip(6)) == encode_utf8(self@.1.0) + seq![58u8] + encode_utf8(self@.1.1),
    {
        let username = self.auth.username;
        let password = self.auth.password;
        let mut credentials: Vec<u8> = Vec::new();
        push_all(&mut credentials, username.as_bytes());
        credentials.push(58u8);
        push_all(&mut credentials, password.as_bytes());
        assert(credentials@ =~= encode_utf8(self@.1.0) + seq![58u8] + encode_utf8(self@.1.1));
        assert(credentials@ =~= credential_bytes(self@.1));
        let encoded = base64_encode(credentials.as_slice());
        let res = String::from_str("Basic ").concat(encoded.as_str());
        proof {
            reveal_strlit("Basic ");
            lemma_base64_roundtrip(credentials@);
            assert(res@.take(6) =~= "Basic "@);
            assert(res@.skip(6) =~= encoded@);
        }
        res
    }

    /// The request for the hex text of the transaction `txid`
    /// (`getrawtransaction`, with the verbose flag off).
    pub fn raw_transaction_request(&self, txid: &str) -> (res: JsonRpcRequest)
        ensures
            is_request(res, "getrawtransaction"@, seq![RpcParam::Text(res.params@[0]->Text_0), RpcParam::Flag(false)]),
            (res.params@[0] matches RpcParam::Text(t) && t@ == txid@),
    {
        let mut params: Vec<RpcParam> = Vec::new();
        params.push(RpcParam::Text(String::from_str(txid)));
        params.push(RpcParam::Flag(false));
        assert(params@ =~= seq![RpcParam::Text(params@[0]->Text_0), RpcParam::Flag(false)]);
        JsonRpcRequest::new("getrawtransaction", params)
    }

    /// The request for the identifiers of the transactions in the node's
    /// mempool (`getrawmempool`, no parameters).
    pub fn raw_mempool_request(&self) -> (res: JsonRpcRequest)
        ensures
            is_request(res, "getrawmempool"@, seq![]),
    {
        JsonRpcRequest::new("getrawmempool", Vec::new())
    }

    /// The request that submits a block given as hex text (`submitblock`).
    pub fn submit_block_request(&self, block_hex: &str) -> (res: JsonRpcRequest)
        ensures
            is_request(res, "submitblock"@, seq![RpcParam::Text(res.params@[0]->Text_0)]),
            (res.params@[0] matches RpcParam::Text(t) && t@ == block_hex@),
    {
        let mut params: Vec<RpcParam> = Vec::new();
        params.push(RpcParam::Text(String::from_str(block_hex)));
        assert(params@ =~= seq![RpcParam::Text(params@[0]->Text_0)]);
        JsonRpcRequest::new("submitblock", params)
    }
}

} // verus!
