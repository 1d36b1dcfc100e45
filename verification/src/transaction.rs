//! Transaction requests and their upstream validation.

use vstd::prelude::*;
use vstd::string::StrSliceExecFns;

verus! {

/// A request to record one credit or debit against an account, as it arrives
/// from the boundary layer: a positive amount, a one-letter kind tag, and a
/// short description.
pub struct Request {
    pub valor: i16,
    pub tipo: String,
    pub descricao: String,
}

/// The outcome of a successful transaction: the account's overdraft limit and
/// its resulting balance.
#[derive(PartialEq, Eq, Structural, Debug, Clone, Copy)]
pub struct Response {
    pub limite: i32,
    pub saldo: i32,
}

/// The kind tag of a credit request.
pub open spec fn credit_kind() -> Seq<char> {
    seq!['c']
}

/// The kind tag of a debit request.
pub open spec fn debit_kind() -> Seq<char> {
    seq!['d']
}

/// A request is valid when its amount is positive, its kind is one of the two
/// closed tags, and its description holds between 1 and 10 characters.
pub open spec fn spec_valid_request(req: Request) -> bool {
    &&& req.valor >= 1
    &&& (req.tipo@ == credit_kind() || req.tipo@ == debit_kind())
    &&& 1 <= req.descricao@.len() <= 10
}

/// A request that has passed upstream validation.
pub struct ValidateCreate(pub Request);

/// True exactly when `s` is the single character `c`.
pub(crate) fn is_single_char(s: &str, c: char) -> (r: bool)
    ensures
        r <==> s@ == seq![c],
{
    let n = s.unicode_len();
    if n == 1 {
        let got = s.get_char(0);
        if got == c {
            proof {
                assert(s@ =~= seq![c]);
            }
            true
        } else {
            false
        }
    } else {
        false
    }
}

impl ValidateCreate {
    /// Validates a request as the boundary layer must before handing it to
    /// the repository: `Some` exactly when the request is valid.
    pub fn validate(req: Request) -> (r: Option<ValidateCreate>)
        ensures
            r matches Some(v) ==> v.0 == req && spec_valid_request(req),
            r is None ==> !spec_valid_request(req),
    {
        let amount_ok = req.valor >= 1;
        let kind_ok = is_single_char(req.tipo.as_str(), 'c')
            || is_single_char(req.tipo.as_str(), 'd');
        let len: usize = req.descricao.as_str().unicode_len();
        let desc_ok = 1 <= len && len <= 10;
        if amount_ok && kind_ok && desc_ok {
            Some(ValidateCreate(req))
        } else {
            None
        }
    }
}

} // verus!
