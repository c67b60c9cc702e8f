use std::str::FromStr;
use vstd::prelude::*;
use vstd::string::*;

use crate::ftt_account::FttAccountType;
use crate::prop_account::AccountType;
use crate::topstep_account::TopstepAccountType;
use crate::trader::EndOfGame;

verus! {

/// Why a selector string was refused.
#[derive(Clone, Copy, Debug, PartialEq, Eq)]
pub enum AccountTypeError {
    /// Not of the form `company:account_type`.
    InvalidFormat,
    UnknownCompany,
    UnknownFttType,
    UnknownTopstepType,
}

/// Which trials the summary is about.
#[derive(Clone, Copy, Debug, PartialEq, Eq)]
pub enum EndStateCondition {
    /// Only the trials that ended in this state.
    Only(EndOfGame),
    /// Every trial.
    All,
    /// A name that means nothing: every trial, and the caller should warn.
    Unrecognized,
}

impl EndStateCondition {
    /// The state to select trials by, if any.
    pub fn selected(&self) -> (r: Option<EndOfGame>)
        ensures
            r == (match self {
                EndStateCondition::Only(s) => Some(*s),
                _ => None,
            }),
    {
        match self {
            EndStateCondition::Only(s) => Some(*s),
            _ => None,
        }
    }
}

pub const COLON: u8 = 58;

/// A byte with ASCII upper case folded to lower case.
pub open spec fn ascii_lower(c: u8) -> u8 {
    if 65 <= c <= 90 {
        (c + 32) as u8
    } else {
        c
    }
}

/// The bytes spell the lower-case word `w`, in any case.
pub open spec fn is_word(b: Seq<u8>, w: Seq<u8>) -> bool {
    &&& b.len() == w.len()
    &&& forall|i: int| 0 <= i < b.len() ==> ascii_lower(#[trigger] b[i]) == w[i]
}

/// The bytes of `ftt`.
pub open spec fn word_ftt() -> Seq<u8> { seq![102u8, 116u8, 116u8] }
/// The bytes of `topstep`.
pub open spec fn word_topstep() -> Seq<u8> { seq![116u8, 111u8, 112u8, 115u8, 116u8, 101u8, 112u8] }
/// The bytes of `rally`.
pub open spec fn word_rally() -> Seq<u8> { seq![114u8, 97u8, 108u8, 108u8, 121u8] }
/// The bytes of `daytona`.
pub open spec fn word_daytona() -> Seq<u8> { seq![100u8, 97u8, 121u8, 116u8, 111u8, 110u8, 97u8] }
/// The bytes of `gt`.
pub open spec fn word_gt() -> Seq<u8> { seq![103u8, 116u8] }
/// The bytes of `lemans`.
pub open spec fn word_lemans() -> Seq<u8> { seq![108u8, 101u8, 109u8, 97u8, 110u8, 115u8] }
/// The bytes of `fifty`.
pub open spec fn word_fifty() -> Seq<u8> { seq![102u8, 105u8, 102u8, 116u8, 121u8] }
/// The bytes of `onehundred`.
pub open spec fn word_onehundred() -> Seq<u8> {
    seq![111u8, 110u8, 101u8, 104u8, 117u8, 110u8, 100u8, 114u8, 101u8, 100u8]
}
/// The bytes of `onefifty`.
pub open spec fn word_onefifty() -> Seq<u8> { seq![111u8, 110u8, 101u8, 102u8, 105u8, 102u8, 116u8, 121u8] }
/// The bytes of `busted`.
pub open spec fn word_busted() -> Seq<u8> { seq![98u8, 117u8, 115u8, 116u8, 101u8, 100u8] }
/// The bytes of `timeout`.
pub open spec fn word_timeout() -> Seq<u8> { seq![116u8, 105u8, 109u8, 101u8, 111u8, 117u8, 116u8] }
/// The bytes of `maxpayouts`.
pub open spec fn word_maxpayouts() -> Seq<u8> {
    seq![109u8, 97u8, 120u8, 112u8, 97u8, 121u8, 111u8, 117u8, 116u8, 115u8]
}
/// The bytes of `all`.
pub open spec fn word_all() -> Seq<u8> { seq![97u8, 108u8, 108u8] }

pub open spec fn spec_parse_ftt(b: Seq<u8>) -> Result<FttAccountType, AccountTypeError> {
    if is_word(b, word_rally()) {
        Ok(FttAccountType::Rally)
    } else if is_word(b, word_daytona()) {
        Ok(FttAccountType::Daytona)
    } else if is_word(b, word_gt()) {
        Ok(FttAccountType::GT)
    } else if is_word(b, word_lemans()) {
        Ok(FttAccountType::LeMans)
    } else {
        Err(AccountTypeError::UnknownFttType)
    }
}

pub open spec fn spec_parse_topstep(b: Seq<u8>) -> Result<TopstepAccountType, AccountTypeError> {
    if is_word(b, word_fifty()) {
        Ok(TopstepAccountType::Fifty)
    } else if is_word(b, word_onehundred()) {
        Ok(TopstepAccountType::OneHundred)
    } else if is_word(b, word_onefifty()) {
        Ok(TopstepAccountType::OneFifty)
    } else {
        Err(AccountTypeError::UnknownTopstepType)
    }
}

/// The only colon of `b` stands at `i`.
pub open spec fn only_colon_at(b: Seq<u8>, i: int) -> bool {
    &&& 0 <= i < b.len()
    &&& b[i] == COLON
    &&& forall|j: int| 0 <= j < b.len() && j != i ==> b[j] != COLON
}

/// `company:account_type`, split at its only colon, each part matched in
/// any case.
pub open spec fn spec_parse_parts(company: Seq<u8>, kind: Seq<u8>) -> Result<AccountType, AccountTypeError> {
    if is_word(company, word_ftt()) {
        match spec_parse_ftt(kind) {
            Ok(t) => Ok(AccountType::Ftt(t)),
            Err(e) => Err(e),
        }
    } else if is_word(company, word_topstep()) {
        match spec_parse_topstep(kind) {
            Ok(t) => Ok(AccountType::TopStep(t)),
            Err(e) => Err(e),
        }
    } else {
        Err(AccountTypeError::UnknownCompany)
    }
}

pub open spec fn spec_parse_end_state(b: Seq<u8>) -> EndStateCondition {
    if is_word(b, word_busted()) {
        EndStateCondition::Only(EndOfGame::Busted)
    } else if is_word(b, word_timeout()) {
        EndStateCondition::Only(EndOfGame::TimeOut)
    } else if is_word(b, word_maxpayouts()) {
        EndStateCondition::Only(EndOfGame::MaxPayouts)
    } else if is_word(b, word_all()) {
        EndStateCondition::All
    } else {
        EndStateCondition::Unrecognized
    }
}

/// Whether `b[lo..hi]` spells the lower-case word `w`, in any case.
fn word_at(b: &[u8], lo: usize, hi: usize, w: &[u8]) -> (r: bool)
    requires
        lo <= hi <= b@.len(),
    ensures
        r == is_word(b@.subrange(lo as int, hi as int), w@),
{
    if hi - lo != w.len() {
        return false;
    }
    let mut k: usize = 0;
    while k < w.len()
        invariant
            lo <= hi <= b@.len(),
            hi - lo == w@.len(),
            k <= w@.len(),
            forall|i: int| 0 <= i < k ==> ascii_lower(#[trigger] b@[lo + i]) == w@[i],
        decreases w.len() - k,
    {
        let c = b[lo + k];
        let lower = if 65 <= c && c <= 90 { c + 32 } else { c };
        if lower != w[k] {
            proof {
                let sub = b@.subrange(lo as int, hi as int);
                assert(sub[k as int] == c);
            }
            return false;
        }
        k = k + 1;
    }
    proof {
        let sub = b@.subrange(lo as int, hi as int);
        assert forall|i: int| 0 <= i < sub.len() implies ascii_lower(#[trigger] sub[i]) == w@[i] by {
            assert(sub[i] == b@[lo + i]);
        }
    }
    true
}

fn parse_ftt_bytes(b: &[u8], lo: usize, hi: usize) -> (r: Result<FttAccountType, AccountTypeError>)
    requires
        lo <= hi <= b@.len(),
    ensures
        r == spec_parse_ftt(b@.subrange(lo as int, hi as int)),
{
    let rally: [u8; 5] = [114u8, 97u8, 108u8, 108u8, 121u8];
    let daytona: [u8; 7] = [100u8, 97u8, 121u8, 116u8, 111u8, 110u8, 97u8];
    let gt: [u8; 2] = [103u8, 116u8];
    let lemans: [u8; 6] = [108u8, 101u8, 109u8, 97u8, 110u8, 115u8];
    assert(rally@ =~= word_rally());
    assert(daytona@ =~= word_daytona());
    assert(gt@ =~= word_gt());
    assert(lemans@ =~= word_lemans());
    if word_at(b, lo, hi, rally.as_slice()) {
        Ok(FttAccountType::Rally)
    } else if word_at(b, lo, hi, daytona.as_slice()) {
        Ok(FttAccountType::Daytona)
    } else if word_at(b, lo, hi, gt.as_slice()) {
        Ok(FttAccountType::GT)
    } else if word_at(b, lo, hi, lemans.as_slice()) {
        Ok(FttAccountType::LeMans)
    } else {
        Err(AccountTypeError::UnknownFttType)
    }
}

fn parse_topstep_bytes(b: &[u8], lo: usize, hi: usize) -> (r: Result<TopstepAccountType, AccountTypeError>)
    requires
        lo <= hi <= b@.len(),
    ensures
        r == spec_parse_topstep(b@.subrange(lo as int, hi as int)),
{
    let fifty: [u8; 5] = [102u8, 105u8, 102u8, 116u8, 121u8];
    let onehundred: [u8; 10] = [111u8, 110u8, 101u8, 104u8, 117u8, 110u8, 100u8, 114u8, 101u8, 100u8];
    let onefifty: [u8; 8] = [111u8, 110u8, 101u8, 102u8, 105u8, 102u8, 116u8, 121u8];
    assert(fifty@ =~= word_fifty());
    assert(onehundred@ =~= word_onehundred());
    assert(onefifty@ =~= word_onefifty());
    if word_at(b, lo, hi, fifty.as_slice()) {
        Ok(TopstepAccountType::Fifty)
    } else if word_at(b, lo, hi, onehundred.as_slice()) {
        Ok(TopstepAccountType::OneHundred)
    } else if word_at(b, lo, hi, onefifty.as_slice()) {
        Ok(TopstepAccountType::OneFifty)
    } else {
        Err(AccountTypeError::UnknownTopstepType)
    }
}

impl FttAccountType {
    /// The tier named by `s`, in any case.
    pub fn parse(s: &str) -> (r: Result<FttAccountType, AccountTypeError>)
        ensures
            r == spec_parse_ftt(s.spec_bytes()),
    {
        let b = s.as_bytes();
        proof {
            assert(b@.subrange(0, b@.len() as int) == b@);
        }
        parse_ftt_bytes(b, 0, b.len())
    }
}

impl TopstepAccountType {
    /// The tier named by `s`, in any case.
    pub fn parse(s: &str) -> (r: Result<TopstepAccountType, AccountTypeError>)
        ensures
            r == spec_parse_topstep(s.spec_bytes()),
    {
        let b = s.as_bytes();
        proof {
            assert(b@.subrange(0, b@.len() as int) == b@);
        }
        parse_topstep_bytes(b, 0, b.len())
    }
}

impl AccountType {
    /// The program and tier named by `company:account_type`, each part in
    /// any case; anything but exactly one colon is refused.
    pub fn parse(s: &str) -> (r: Result<AccountType, AccountTypeError>)
        ensures
            (forall|i: int| !only_colon_at(s.spec_bytes(), i)) ==> r == Err::<AccountType, AccountTypeError>(AccountTypeError::InvalidFormat),
            forall|i: int| only_colon_at(s.spec_bytes(), i) ==> r == spec_parse_parts(
                s.spec_bytes().subrange(0, i),
                s.spec_bytes().subrange(i + 1, s.spec_bytes().len() as int),
            ),
    {
        let b = s.as_bytes();
        let n = b.len();
        let mut colon: usize = n;
        let mut count: usize = 0;
        let mut k: usize = 0;
        while k < n
            invariant
                n == b@.len(),
                k <= n,
                count <= k,
                count == 0 ==> colon == n && forall|j: int| 0 <= j < k ==> b@[j] != COLON,
                count == 1 ==> colon < k && b@[colon as int] == COLON && forall|j: int|
                    0 <= j < k && j != colon ==> b@[j] != COLON,
                count >= 2 ==> forall|i: int| !only_colon_at(b@, i),
            decreases n - k,
        {
            if b[k] == COLON {
                if count == 0 {
                    colon = k;
                    count = 1;
                } else {
                    proof {
                        assert forall|i: int| !only_colon_at(b@, i) by {
                            if count == 1 {
                                if i == colon as int {
                                    assert(b@[k as int] == COLON);
                                } else {
                                    assert(b@[colon as int] == COLON);
                                }
                            }
                        }
                    }
                    count = 2;
                }
            }
            k = k + 1;
        }
        if count != 1 {
            return Err(AccountTypeError::InvalidFormat);
        }
        proof {
            assert(only_colon_at(b@, colon as int));
            assert forall|i: int| only_colon_at(b@, i) implies i == colon as int by {
                if i != colon as int {
                    assert(b@[colon as int] == COLON);
                }
            }
        }
        let ftt: [u8; 3] = [102u8, 116u8, 116u8];
        let topstep: [u8; 7] = [116u8, 111u8, 112u8, 115u8, 116u8, 101u8, 112u8];
        assert(ftt@ =~= word_ftt());
        assert(topstep@ =~= word_topstep());
        if word_at(b, 0, colon, ftt.as_slice()) {
            match parse_ftt_bytes(b, colon + 1, n) {
                Ok(t) => Ok(AccountType::Ftt(t)),
                Err(e) => Err(e),
            }
        } else if word_at(b, 0, colon, topstep.as_slice()) {
            match parse_topstep_bytes(b, colon + 1, n) {
                Ok(t) => Ok(AccountType::TopStep(t)),
                Err(e) => Err(e),
            }
        } else {
            Err(AccountTypeError::UnknownCompany)
        }
    }
}

impl EndStateCondition {
    /// The condition named by `s`, in any case: `busted`, `timeout`,
    /// `maxpayouts` or `all`.
    pub fn parse(s: &str) -> (r: EndStateCondition)
        ensures
            r == spec_parse_end_state(s.spec_bytes()),
    {
        let b = s.as_bytes();
        let n = b.len();
        proof {
            assert(b@.subrange(0, n as int) == b@);
        }
        let busted: [u8; 6] = [98u8, 117u8, 115u8, 116u8, 101u8, 100u8];
        let timeout: [u8; 7] = [116u8, 105u8, 109u8, 101u8, 111u8, 117u8, 116u8];
        let maxpayouts: [u8; 10] = [109u8, 97u8, 120u8, 112u8, 97u8, 121u8, 111u8, 117u8, 116u8, 115u8];
        let all: [u8; 3] = [97u8, 108u8, 108u8];
        assert(busted@ =~= word_busted());
        assert(timeout@ =~= word_timeout());
        assert(maxpayouts@ =~= word_maxpayouts());
        assert(all@ =~= word_all());
        if word_at(b, 0, n, busted.as_slice()) {
            EndStateCondition::Only(EndOfGame::Busted)
        } else if word_at(b, 0, n, timeout.as_slice()) {
            EndStateCondition::Only(EndOfGame::TimeOut)
        } else if word_at(b, 0, n, maxpayouts.as_slice()) {
            EndStateCondition::Only(EndOfGame::MaxPayouts)
        } else if word_at(b, 0, n, all.as_slice()) {
            EndStateCondition::All
        } else {
            EndStateCondition::Unrecognized
        }
    }
}

impl FromStr for FttAccountType {
    type Err = AccountTypeError;

    fn from_str(s: &str) -> Result<Self, Self::Err> {
        FttAccountType::parse(s)
    }
}

impl FromStr for TopstepAccountType {
    type Err = AccountTypeError;

    fn from_str(s: &str) -> Result<Self, Self::Err> {
        TopstepAccountType::parse(s)
    }
}

impl FromStr for AccountType {
    type Err = AccountTypeError;

    fn from_str(s: &str) -> Result<Self, Self::Err> {
        AccountType::parse(s)
    }
}

} // verus!
