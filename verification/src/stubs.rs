//! The registry of canned external-call results: a call is identified by
//! a deterministic fingerprint built from the contract address, the
//! function name and the string form of every argument token in call
//! order; each fingerprint maps to at most one canned return token, the
//! last one registered.

use vstd::prelude::*;
use vstd::pervasive::VecAdditionalExecFns;
use crate::errors::FatalError;
use crate::text::{hex_seq, push_hex};

verus! {

/// One argument or return token of a stubbed external call. Numerals are
/// carried in the string form the test author writes.
#[derive(Debug, Clone, PartialEq, Eq)]
pub enum TokenScalar {
    Address(String),
    FixedBytes(Vec<u8>),
    Bytes(Vec<u8>),
    Int(String),
    Uint(String),
    Bool(bool),
    Str(String),
}

/// One call token: a scalar, or a collection of scalars.
#[derive(Debug, Clone, PartialEq, Eq)]
pub enum CallToken {
    Scalar(TokenScalar),
    FixedArray(Vec<TokenScalar>),
    Array(Vec<TokenScalar>),
    Tuple(Vec<TokenScalar>),
}

/// Mathematical model of a scalar token.
#[verifier::ext_equal]
pub enum TokenScalarView {
    Address(Seq<char>),
    FixedBytes(Seq<u8>),
    Bytes(Seq<u8>),
    Int(Seq<char>),
    Uint(Seq<char>),
    Bool(bool),
    Str(Seq<char>),
}

/// Mathematical model of a call token.
#[verifier::ext_equal]
pub enum CallTokenView {
    Scalar(TokenScalarView),
    FixedArray(Seq<TokenScalarView>),
    Array(Seq<TokenScalarView>),
    Tuple(Seq<TokenScalarView>),
}

impl View for TokenScalar {
    type V = TokenScalarView;

    open spec fn view(&self) -> TokenScalarView {
        match self {
            TokenScalar::Address(a) => TokenScalarView::Address(a@),
            TokenScalar::FixedBytes(b) => TokenScalarView::FixedBytes(b@),
            TokenScalar::Bytes(b) => TokenScalarView::Bytes(b@),
            TokenScalar::Int(n) => TokenScalarView::Int(n@),
            TokenScalar::Uint(n) => TokenScalarView::Uint(n@),
            TokenScalar::Bool(b) => TokenScalarView::Bool(*b),
            TokenScalar::Str(s) => TokenScalarView::Str(s@),
        }
    }
}

/// The models of a sequence of scalar tokens, element by element.
pub open spec fn scalar_views(items: Seq<TokenScalar>) -> Seq<TokenScalarView> {
    items.map_values(|x: TokenScalar| x@)
}

impl View for CallToken {
    type V = CallTokenView;

    open spec fn view(&self) -> CallTokenView {
        match self {
            CallToken::Scalar(sv) => CallTokenView::Scalar(sv@),
            CallToken::FixedArray(items) => CallTokenView::FixedArray(scalar_views(items@)),
            CallToken::Array(items) => CallTokenView::Array(scalar_views(items@)),
            CallToken::Tuple(items) => CallTokenView::Tuple(scalar_views(items@)),
        }
    }
}

/// The models of a sequence of call tokens, element by element.
pub open spec fn token_views(items: Seq<CallToken>) -> Seq<CallTokenView> {
    items.map_values(|x: CallToken| x@)
}

/// String form of a scalar token, tagged with its type.
pub open spec fn scalar_token_text(v: TokenScalarView) -> Seq<char> {
    match v {
        TokenScalarView::Address(a) => "address:"@ + a,
        TokenScalarView::FixedBytes(b) => "fixedbytes:0x"@ + hex_seq(b),
        TokenScalarView::Bytes(b) => "bytes:0x"@ + hex_seq(b),
        TokenScalarView::Int(n) => "int:"@ + n,
        TokenScalarView::Uint(n) => "uint:"@ + n,
        TokenScalarView::Bool(b) => if b { "bool:true"@ } else { "bool:false"@ },
        TokenScalarView::Str(s) => "string:"@ + s,
    }
}

/// String form of the elements of a token collection, comma separated.
pub open spec fn scalar_list_text(items: Seq<TokenScalarView>) -> Seq<char>
    decreases items.len(),
{
    if items.len() == 0 {
        Seq::<char>::empty()
    } else if items.len() == 1 {
        scalar_token_text(items[0])
    } else {
        scalar_list_text(items.drop_last()) + ","@ + scalar_token_text(items.last())
    }
}

/// String form of a call token, tagged with its type.
pub open spec fn token_text(v: CallTokenView) -> Seq<char> {
    match v {
        CallTokenView::Scalar(sv) => scalar_token_text(sv),
        CallTokenView::FixedArray(items) => "fixedarray:["@ + scalar_list_text(items) + "]"@,
        CallTokenView::Array(items) => "array:["@ + scalar_list_text(items) + "]"@,
        CallTokenView::Tuple(items) => "tuple:("@ + scalar_list_text(items) + ")"@,
    }
}

/// The string forms of the arguments, concatenated in call order.
pub open spec fn args_text(args: Seq<CallTokenView>) -> Seq<char>
    decreases args.len(),
{
    if args.len() == 0 {
        Seq::<char>::empty()
    } else {
        args_text(args.drop_last()) + token_text(args.last())
    }
}

/// The fingerprint of one external call: address, then function name,
/// then every argument token's string form, concatenated.
pub open spec fn fingerprint(
    address: Seq<char>,
    fn_name: Seq<char>,
    args: Seq<CallTokenView>,
) -> Seq<char> {
    address + fn_name + args_text(args)
}

/// Appends the tagged string form of a scalar token to `out`.
fn push_scalar_token_text(out: &mut String, v: &TokenScalar)
    ensures
        final(out)@ == old(out)@ + scalar_token_text(v@),
{
    match v {
        TokenScalar::Address(a) => {
            out.append("address:");
            out.append(a.as_str());
            proof {
                assert(final(out)@ =~= old(out)@ + scalar_token_text(v@));
            }
        }
        TokenScalar::FixedBytes(b) => {
            out.append("fixedbytes:0x");
            push_hex(out, b);
            proof {
                assert(final(out)@ =~= old(out)@ + scalar_token_text(v@));
            }
        }
        TokenScalar::Bytes(b) => {
            out.append("bytes:0x");
            push_hex(out, b);
            proof {
                assert(final(out)@ =~= old(out)@ + scalar_token_text(v@));
            }
        }
        TokenScalar::Int(n) => {
            out.append("int:");
            out.append(n.as_str());
            proof {
                assert(final(out)@ =~= old(out)@ + scalar_token_text(v@));
            }
        }
        TokenScalar::Uint(n) => {
            out.append("uint:");
            out.append(n.as_str());
            proof {
                assert(final(out)@ =~= old(out)@ + scalar_token_text(v@));
            }
        }
        TokenScalar::Bool(b) => {
            if *b {
                out.append("bool:true");
            } else {
                out.append("bool:false");
            }
        }
        TokenScalar::Str(s) => {
            out.append("string:");
            out.append(s.as_str());
            proof {
                assert(final(out)@ =~= old(out)@ + scalar_token_text(v@));
            }
        }
    }
}

/// Appends the comma separated string forms of a token collection.
fn push_scalar_list_text(out: &mut String, items: &Vec<TokenScalar>)
    ensures
        final(out)@ == old(out)@ + scalar_list_text(scalar_views(items@)),
{
    let mut i: usize = 0;
    proof {
        assert(scalar_views(items@.subrange(0, 0)) =~= Seq::<TokenScalarView>::empty());
        assert(out@ =~= old(out)@ + scalar_list_text(scalar_views(items@.subrange(0, 0))));
    }
    while i < items.len()
        invariant
            i <= items@.len(),
            out@ == old(out)@ + scalar_list_text(scalar_views(items@.subrange(0, i as int))),
        decreases items@.len() - i,
    {
        if i > 0 {
            out.append(",");
        }
        push_scalar_token_text(out, &items[i]);
        proof {
            let pre = scalar_views(items@.subrange(0, i as int));
            let post = scalar_views(items@.subrange(0, i + 1 as int));
            assert(post.drop_last() =~= pre);
            assert(post.last() == items@[i as int]@);
            assert(out@ =~= old(out)@ + scalar_list_text(post));
        }
        i = i + 1;
    }
    proof {
        assert(scalar_views(items@.subrange(0, items@.len() as int)) =~= scalar_views(items@));
    }
}

/// Appends the tagged string form of a call token to `out`.
fn push_token_text(out: &mut String, v: &CallToken)
    ensures
        final(out)@ == old(out)@ + token_text(v@),
{
    match v {
        CallToken::Scalar(sv) => {
            push_scalar_token_text(out, sv);
        }
        CallToken::FixedArray(items) => {
            out.append("fixedarray:[");
            push_scalar_list_text(out, items);
            out.append("]");
            proof {
                assert(final(out)@ =~= old(out)@ + token_text(v@));
            }
        }
        CallToken::Array(items) => {
            out.append("array:[");
            push_scalar_list_text(out, items);
            out.append("]");
            proof {
                assert(final(out)@ =~= old(out)@ + token_text(v@));
            }
        }
        CallToken::Tuple(items) => {
            out.append("tuple:(");
            push_scalar_list_text(out, items);
            out.append(")");
            proof {
                assert(final(out)@ =~= old(out)@ + token_text(v@));
            }
        }
    }
}

/// Builds the fingerprint of one call from its address, function name and
/// argument tokens.
pub fn create_unique_fn_string(
    contract_address: &String,
    fn_name: &String,
    fn_args: &Vec<CallToken>,
) -> (r: String)
    ensures
        r@ == fingerprint(contract_address@, fn_name@, token_views(fn_args@)),
{
    let mut out = String::new();
    out.append(contract_address.as_str());
    out.append(fn_name.as_str());
    let mut i: usize = 0;
    proof {
        assert(token_views(fn_args@.subrange(0, 0)) =~= Seq::<CallTokenView>::empty());
        assert(out@ =~= contract_address@ + fn_name@
            + args_text(token_views(fn_args@.subrange(0, 0))));
    }
    while i < fn_args.len()
        invariant
            i <= fn_args@.len(),
            out@ == contract_address@ + fn_name@
                + args_text(token_views(fn_args@.subrange(0, i as int))),
        decreases fn_args@.len() - i,
    {
        push_token_text(&mut out, &fn_args[i]);
        proof {
            let pre = token_views(fn_args@.subrange(0, i as int));
            let post = token_views(fn_args@.subrange(0, i + 1 as int));
            assert(post.drop_last() =~= pre);
            assert(post.last() == fn_args@[i as int]@);
            assert(out@ =~= contract_address@ + fn_name@ + args_text(post));
        }
        i = i + 1;
    }
    proof {
        assert(token_views(fn_args@.subrange(0, fn_args@.len() as int))
            =~= token_views(fn_args@));
    }
    out
}

/// The model of the registry: fingerprint and return token pairs.
pub type StubModel = Seq<(Seq<char>, CallTokenView)>;

/// Whether some stub carries this fingerprint.
pub open spec fn stub_has(s: StubModel, fp: Seq<char>) -> bool {
    exists|i: int| 0 <= i < s.len() && s[i].0 == fp
}

/// The position of the stub with this fingerprint.
pub open spec fn stub_index(s: StubModel, fp: Seq<char>) -> int {
    choose|i: int| 0 <= i < s.len() && s[i].0 == fp
}

/// The return token canned under this fingerprint.
pub open spec fn stub_value(s: StubModel, fp: Seq<char>) -> CallTokenView {
    s[stub_index(s, fp)].1
}

/// The model after registering `v` under `fp`: the fingerprint's value is
/// replaced when it is present, appended otherwise.
pub open spec fn spec_register(s: StubModel, fp: Seq<char>, v: CallTokenView) -> StubModel {
    if stub_has(s, fp) {
        s.update(stub_index(s, fp), (fp, v))
    } else {
        s.push((fp, v))
    }
}

/// The deterministic map from call fingerprints to canned return tokens.
pub struct CallStubRegistry {
    pub entries: Vec<(String, CallToken)>,
}

/// The models of a stub list, element by element.
pub open spec fn stub_views(s: Seq<(String, CallToken)>) -> StubModel {
    s.map_values(|p: (String, CallToken)| (p.0@, p.1@))
}

/// Taking stub models commutes with appending one stub.
pub proof fn lemma_stub_views_push(s: Seq<(String, CallToken)>, x: (String, CallToken))
    ensures
        stub_views(s.push(x)) =~= stub_views(s).push((x.0@, x.1@)),
{
    assert forall|k: int| 0 <= k < s.len() + 1 implies
        stub_views(s.push(x))[k] == stub_views(s).push((x.0@, x.1@))[k] by {
        if k < s.len() {
            assert(s.push(x)[k] == s[k]);
        } else {
            assert(s.push(x)[k] == x);
        }
    }
}

/// Taking stub models commutes with updating one stub.
pub proof fn lemma_stub_views_update(s: Seq<(String, CallToken)>, i: int, x: (String, CallToken))
    requires
        0 <= i < s.len(),
    ensures
        stub_views(s.update(i, x)) =~= stub_views(s).update(i, (x.0@, x.1@)),
{
    assert forall|k: int| 0 <= k < s.len() implies
        stub_views(s.update(i, x))[k] == stub_views(s).update(i, (x.0@, x.1@))[k] by {
        if k != i {
            assert(s.update(i, x)[k] == s[k]);
        } else {
            assert(s.update(i, x)[k] == x);
        }
    }
}

impl CallStubRegistry {
    /// The registry's model.
    pub open spec fn view_model(self) -> StubModel {
        stub_views(self.entries@)
    }

    /// Fingerprints are unique.
    pub open spec fn wf(self) -> bool {
        forall|i: int, j: int|
            0 <= i < j < self.view_model().len()
                ==> self.view_model()[i].0 != self.view_model()[j].0
    }

    /// A registry with no stubs.
    pub fn new() -> (r: CallStubRegistry)
        ensures
            r.view_model() =~= Seq::<(Seq<char>, CallTokenView)>::empty(),
            r.wf(),
    {
        CallStubRegistry { entries: Vec::new() }
    }

    /// The position of the stub with this fingerprint, if any.
    fn find(&self, fp: &String) -> (r: Option<usize>)
        ensures
            match r {
                Some(i) => i < self.view_model().len() && self.view_model()[i as int].0 == fp@,
                None => !stub_has(self.view_model(), fp@),
            },
    {
        let mut i: usize = 0;
        while i < self.entries.len()
            invariant
                i <= self.entries@.len(),
                forall|k: int| 0 <= k < i ==> self.view_model()[k].0 != fp@,
            decreases self.entries@.len() - i,
        {
            if self.entries[i].0.eq(fp) {
                proof {
                    assert(self.view_model()[i as int].0 == fp@);
                }
                return Some(i);
            }
            i = i + 1;
        }
        None
    }

    /// Cans `return_value` for the call described by the address, function
    /// name and argument tokens; registering the same fingerprint again
    /// overwrites the prior value.
    pub fn register(
        &mut self,
        contract_address: &String,
        fn_name: &String,
        fn_args: &Vec<CallToken>,
        return_value: CallToken,
    )
        requires
            old(self).wf(),
        ensures
            final(self).wf(),
            final(self).view_model() == spec_register(
                old(self).view_model(),
                fingerprint(contract_address@, fn_name@, token_views(fn_args@)),
                return_value@,
            ),
    {
        let fp = create_unique_fn_string(contract_address, fn_name, fn_args);
        let ghost fpv = fp@;
        let found = self.find(&fp);
        match found {
            Some(i) => {
                proof {
                    let j = stub_index(self.view_model(), fpv);
                    assert(0 <= j < self.view_model().len()
                        && self.view_model()[j].0 == fpv);
                    assert(j == i as int);
                    lemma_stub_views_update(self.entries@, i as int, (fp, return_value));
                }
                self.entries.set(i, (fp, return_value));
                proof {
                    assert(self.view_model() =~= spec_register(
                        old(self).view_model(),
                        fpv,
                        return_value@,
                    ));
                }
            }
            None => {
                proof {
                    lemma_stub_views_push(self.entries@, (fp, return_value));
                }
                self.entries.push((fp, return_value));
                proof {
                    assert(self.view_model() =~= spec_register(
                        old(self).view_model(),
                        fpv,
                        return_value@,
                    ));
                    let es = old(self).view_model();
                    let fs = self.view_model();
                    assert forall|a: int, b: int| 0 <= a < b < fs.len() implies
                        fs[a].0 != fs[b].0 by {
                        if b < es.len() {
                            assert(fs[a] == es[a]);
                            assert(fs[b] == es[b]);
                        } else {
                            assert(fs[a] == es[a]);
                            if es[a].0 == fpv {
                                assert(stub_has(es, fpv));
                            }
                        }
                    }
                }
            }
        }
    }

    /// Resolves the call described by the address, function name and
    /// argument tokens to its canned return token. A fingerprint that was
    /// never registered is a fatal configuration error: the simulated
    /// world cannot guess an external call's result.
    pub fn resolve(
        &self,
        contract_address: &String,
        fn_name: &String,
        fn_args: &Vec<CallToken>,
    ) -> (r: Result<&CallToken, FatalError>)
        requires
            self.wf(),
        ensures
            ({
                let fp = fingerprint(contract_address@, fn_name@, token_views(fn_args@));
                match r {
                    Ok(v) => stub_has(self.view_model(), fp)
                        && v@ == stub_value(self.view_model(), fp),
                    Err(e) => !stub_has(self.view_model(), fp)
                        && e@ == crate::errors::FatalErrorView::MissingStub { fingerprint: fp },
                }
            }),
    {
        let fp = create_unique_fn_string(contract_address, fn_name, fn_args);
        let found = self.find(&fp);
        match found {
            Some(i) => {
                proof {
                    let j = stub_index(self.view_model(), fp@);
                    assert(0 <= j < self.view_model().len()
                        && self.view_model()[j].0 == fp@);
                    assert(j == i as int);
                }
                Ok(&self.entries[i].1)
            }
            None => Err(FatalError::MissingStub { fingerprint: fp }),
        }
    }
}

/// Registering a call and then resolving the identical triple always
/// yields exactly the registered token: the fingerprint is a function of
/// the triple alone, and registration pins its value.
pub proof fn lemma_resolve_deterministic(
    s: StubModel,
    address: Seq<char>,
    fn_name: Seq<char>,
    args: Seq<CallTokenView>,
    ret: CallTokenView,
)
    requires
        forall|i: int, j: int| 0 <= i < j < s.len() ==> s[i].0 != s[j].0,
    ensures
        stub_has(spec_register(s, fingerprint(address, fn_name, args), ret),
            fingerprint(address, fn_name, args)),
        stub_value(spec_register(s, fingerprint(address, fn_name, args), ret),
            fingerprint(address, fn_name, args)) == ret,
{
    let fp = fingerprint(address, fn_name, args);
    let s2 = spec_register(s, fp, ret);
    if stub_has(s, fp) {
        let i = stub_index(s, fp);
        assert(0 <= i < s.len() && s[i].0 == fp);
        assert(s2[i] == (fp, ret));
        assert(stub_has(s2, fp));
        let j = stub_index(s2, fp);
        assert(0 <= j < s2.len() && s2[j].0 == fp);
        if i != j {
            assert(s2[j] == s[j]);
            if i < j {
                assert(s[i].0 != s[j].0);
            } else {
                assert(s[j].0 != s[i].0);
            }
        }
        assert(stub_value(s2, fp) == ret);
    } else {
        let n = s.len() as int;
        assert(s2[n] == (fp, ret));
        assert(stub_has(s2, fp));
        let j = stub_index(s2, fp);
        assert(0 <= j < s2.len() && s2[j].0 == fp);
        if j != n {
            assert(s2[j] == s[j]);
            assert(stub_has(s, fp));
        }
        assert(stub_value(s2, fp) == ret);
    }
}

/// A copy of a scalar token with the same model.
pub fn dup_token_scalar(v: &TokenScalar) -> (r: TokenScalar)
    ensures
        r@ == v@,
{
    match v {
        TokenScalar::Address(a) => TokenScalar::Address(a.clone()),
        TokenScalar::FixedBytes(b) => TokenScalar::FixedBytes(crate::value::dup_bytes(b)),
        TokenScalar::Bytes(b) => TokenScalar::Bytes(crate::value::dup_bytes(b)),
        TokenScalar::Int(n) => TokenScalar::Int(n.clone()),
        TokenScalar::Uint(n) => TokenScalar::Uint(n.clone()),
        TokenScalar::Bool(b) => TokenScalar::Bool(*b),
        TokenScalar::Str(s) => TokenScalar::Str(s.clone()),
    }
}

/// A copy of a scalar token list with the same models.
fn dup_token_scalars(items: &Vec<TokenScalar>) -> (r: Vec<TokenScalar>)
    ensures
        scalar_views(r@) == scalar_views(items@),
{
    let mut out: Vec<TokenScalar> = Vec::new();
    let mut i: usize = 0;
    while i < items.len()
        invariant
            i <= items@.len(),
            scalar_views(out@) == scalar_views(items@.subrange(0, i as int)),
        decreases items@.len() - i,
    {
        let d = dup_token_scalar(&items[i]);
        let ghost prev = out@;
        out.push(d);
        proof {
            lemma_scalar_views_push(prev, out@.last());
            lemma_scalar_views_push(items@.subrange(0, i as int), items@[i as int]);
            assert(items@.subrange(0, i + 1 as int)
                =~= items@.subrange(0, i as int).push(items@[i as int]));
            assert(scalar_views(out@) =~= scalar_views(items@.subrange(0, i + 1 as int)));
        }
        i = i + 1;
    }
    proof {
        assert(scalar_views(items@.subrange(0, items@.len() as int)) =~= scalar_views(items@));
    }
    out
}

/// Taking scalar token models commutes with appending one token.
pub proof fn lemma_scalar_views_push(s: Seq<TokenScalar>, x: TokenScalar)
    ensures
        scalar_views(s.push(x)) =~= scalar_views(s).push(x@),
{
    assert forall|k: int| 0 <= k < s.len() + 1 implies
        scalar_views(s.push(x))[k] == scalar_views(s).push(x@)[k] by {
        if k < s.len() {
            assert(s.push(x)[k] == s[k]);
        } else {
            assert(s.push(x)[k] == x);
        }
    }
}

/// A copy of a call token with the same model.
pub fn dup_call_token(v: &CallToken) -> (r: CallToken)
    ensures
        r@ == v@,
{
    match v {
        CallToken::Scalar(sv) => CallToken::Scalar(dup_token_scalar(sv)),
        CallToken::FixedArray(items) => {
            let d = dup_token_scalars(items);
            proof {
                assert(CallToken::FixedArray(d)@ =~= v@);
            }
            CallToken::FixedArray(d)
        }
        CallToken::Array(items) => {
            let d = dup_token_scalars(items);
            proof {
                assert(CallToken::Array(d)@ =~= v@);
            }
            CallToken::Array(d)
        }
        CallToken::Tuple(items) => {
            let d = dup_token_scalars(items);
            proof {
                assert(CallToken::Tuple(d)@ =~= v@);
            }
            CallToken::Tuple(d)
        }
    }
}

} // verus!
