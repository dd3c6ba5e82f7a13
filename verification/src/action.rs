//! The resource vector and the action catalog: token balances, the closed set
//! of moves, each move's cost, and the textual encoding of moves.

use vstd::prelude::*;
use vstd::string::{StrSliceExecFns, StringExecFns};

verus! {

/// Highest attack or defense level the catalog admits; bounded so that every
/// level fits a cost component.
pub const MAX_LEVEL: u8 = 127;

/// One side's token balances, in fixed order: registration tokens,
/// full-defense tokens, reflect tokens.
///
/// Balances are meant to stay non-negative; a component may go negative only
/// transiently inside cost application, where it signals depletion and ends
/// the round as a loss for the vector's owner.
#[derive(Clone, Copy, PartialEq, Eq, Structural, Debug)]
pub struct Resource {
    pub registration: i8,
    pub full_defense: i8,
    pub reflect: i8,
}

impl View for Resource {
    type V = Seq<int>;

    open spec fn view(&self) -> Seq<int> {
        seq![self.registration as int, self.full_defense as int, self.reflect as int]
    }
}

/// All three components are non-negative: the resting state of a vector
/// between rounds.
pub open spec fn vec_wf(v: Seq<int>) -> bool {
    v.len() == 3 && 0 <= v[0] && 0 <= v[1] && 0 <= v[2]
}

/// Component-wise difference of a vector and a cost.
pub open spec fn sub_components(v: Seq<int>, c: Seq<int>) -> Seq<int> {
    seq![v[0] - c[0], v[1] - c[1], v[2] - c[2]]
}

/// Subtracting `c` from `v` drives some component below zero.
pub open spec fn depletes(v: Seq<int>, c: Seq<int>) -> bool {
    v[0] - c[0] < 0 || v[1] - c[1] < 0 || v[2] - c[2] < 0
}

/// The vector after cost application: the full difference when nothing
/// depletes, otherwise the partial subtraction at the point of failure
/// (components are updated in index order and the walk stops at the first
/// negative result).
pub open spec fn apply_partial(v: Seq<int>, c: Seq<int>) -> Seq<int> {
    if v[0] - c[0] < 0 {
        seq![v[0] - c[0], v[1], v[2]]
    } else if v[1] - c[1] < 0 {
        seq![v[0] - c[0], v[1] - c[1], v[2]]
    } else {
        sub_components(v, c)
    }
}

/// Every subtraction performed during cost application stays representable in
/// a component.
pub open spec fn fits(v: Seq<int>, c: Seq<int>) -> bool {
    &&& i8::MIN <= v[0] - c[0] <= i8::MAX
    &&& i8::MIN <= v[1] - c[1] <= i8::MAX
    &&& i8::MIN <= v[2] - c[2] <= i8::MAX
}

impl Resource {
    /// Builds a vector from its three components in catalog order.
    pub fn new(registration: i8, full_defense: i8, reflect: i8) -> (r: Resource)
        ensures
            r@ == seq![registration as int, full_defense as int, reflect as int],
    {
        Resource { registration, full_defense, reflect }
    }

    /// Each side's balance at match start: no registration token, one
    /// full-defense token, one reflect token.
    pub fn initial() -> (r: Resource)
        ensures
            r@ == seq![0int, 1int, 1int],
            vec_wf(r@),
    {
        Resource { registration: 0, full_defense: 1, reflect: 1 }
    }

    /// Whether this vector is at rest: every component non-negative, as
    /// between rounds. A front end that owns a vector can test this before
    /// handing it to an actor that expects a resting one.
    pub fn is_resting(&self) -> (b: bool)
        ensures
            b == vec_wf(self@),
    {
        self.registration >= 0 && self.full_defense >= 0 && self.reflect >= 0
    }

    /// Subtracts `cost` component-wise, stopping at the first component that
    /// would go negative; the flag reports that depletion.
    pub fn apply(self, cost: Resource) -> (r: (Resource, bool))
        requires
            fits(self@, cost@),
        ensures
            r.1 == depletes(self@, cost@),
            r.0@ == apply_partial(self@, cost@),
            !r.1 ==> r.0@ == sub_components(self@, cost@),
    {
        let mut out = self;
        out.registration = self.registration - cost.registration;
        if out.registration < 0 {
            return (out, true);
        }
        out.full_defense = self.full_defense - cost.full_defense;
        if out.full_defense < 0 {
            return (out, true);
        }
        out.reflect = self.reflect - cost.reflect;
        if out.reflect < 0 {
            return (out, true);
        }
        (out, false)
    }
}

/// A move, chosen fresh each round. `Attack` and `Defend` carry their level;
/// a defense neutralizes an attack only when the levels are equal.
#[derive(Clone, Copy, PartialEq, Eq, Structural, Debug)]
pub enum Action {
    /// Grants one registration token instead of spending anything.
    Guahao,
    /// Spends as many registration tokens as its level.
    Attack(u8),
    /// Free; only its level matters, against the incoming attack's level.
    Defend(u8),
    /// Full defense: spends one full-defense token, blocks any single attack.
    Quanfang,
    /// Reflect: spends one reflect token, turns an incoming attack into a
    /// loss for the attacker.
    Fantan,
}

/// The cost table. `Guahao` is the single exception to "costs are spent": its
/// negative registration component grants a token through the same
/// subtraction.
pub open spec fn cost_spec(a: Action) -> Seq<int> {
    match a {
        Action::Guahao => seq![-1int, 0, 0],
        Action::Attack(n) => seq![n as int, 0, 0],
        Action::Defend(_) => seq![0int, 0, 0],
        Action::Quanfang => seq![0int, 1, 0],
        Action::Fantan => seq![0int, 0, 1],
    }
}

impl Action {
    /// A leveled move's level lies in the range the catalog admits; levels
    /// outside it have no defined cost or resolution.
    pub open spec fn wf(self) -> bool {
        match self {
            Action::Attack(n) => 1 <= n <= MAX_LEVEL,
            Action::Defend(n) => 1 <= n <= MAX_LEVEL,
            _ => true,
        }
    }

    /// The resource vector this move costs, per the catalog's fixed table.
    pub fn get_cost(&self) -> (c: Resource)
        requires
            self.wf(),
        ensures
            c@ == cost_spec(*self),
    {
        match self {
            Action::Guahao => Resource::new(-1, 0, 0),
            Action::Attack(n) => Resource::new(*n as i8, 0, 0),
            Action::Defend(_) => Resource::new(0, 0, 0),
            Action::Quanfang => Resource::new(0, 1, 0),
            Action::Fantan => Resource::new(0, 0, 1),
        }
    }

    /// Whether `state` can pay this move's cost without any component going
    /// negative. The engine never rejects an unaffordable move: playing one
    /// is resolved as an immediate loss; this check exists for actors that
    /// restrict themselves to affordable moves and for front ends that grey
    /// out unaffordable buttons.
    pub fn is_affordable(&self, state: &Resource) -> (b: bool)
        requires
            self.wf(),
        ensures
            b == !depletes(state@, cost_spec(*self)),
    {
        let cost = self.get_cost();
        state.registration >= cost.registration && state.full_defense >= cost.full_defense
            && state.reflect >= cost.reflect
    }
}

/// Parse failure for the textual action encoding: recoverable, the caller
/// re-prompts without consuming a round.
#[derive(Clone, Copy, PartialEq, Eq, Structural, Debug)]
pub struct ParseActionError;

/// A decimal digit.
pub open spec fn is_digit(c: char) -> bool {
    48 <= c as int <= 57
}

/// The numeric value of a decimal digit.
pub open spec fn digit_val(c: char) -> int {
    c as int - 48
}

/// Every character is a decimal digit.
pub open spec fn all_digits(s: Seq<char>) -> bool {
    forall|i: int| 0 <= i < s.len() ==> is_digit(#[trigger] s[i])
}

/// The value of a run of decimal digits, most significant first.
pub open spec fn digits_val(s: Seq<char>) -> int
    decreases s.len(),
{
    if s.len() == 0 {
        0
    } else {
        digits_val(s.drop_last()) * 10 + digit_val(s.last())
    }
}

/// An optionally signed run of at least one decimal digit.
pub open spec fn is_int_token(s: Seq<char>) -> bool {
    if s.len() > 0 && (s[0] == '-' || s[0] == '+') {
        s.len() > 1 && all_digits(s.drop_first())
    } else {
        s.len() > 0 && all_digits(s)
    }
}

/// The signed value of an integer token.
pub open spec fn int_token_val(s: Seq<char>) -> int {
    if s[0] == '-' {
        -digits_val(s.drop_first())
    } else if s[0] == '+' {
        digits_val(s.drop_first())
    } else {
        digits_val(s)
    }
}

/// The textual action encoding: the literals `g`, `q` and `f` name the three
/// unleveled moves; an integer token is an attack when positive and a defense
/// of the negated level when negative, provided the level lies in the range
/// the catalog admits; everything else — including zero and out-of-range
/// levels — is a parse failure.
pub open spec fn parse_spec(s: Seq<char>) -> Option<Action> {
    if s == "g"@ {
        Some(Action::Guahao)
    } else if s == "q"@ {
        Some(Action::Quanfang)
    } else if s == "f"@ {
        Some(Action::Fantan)
    } else if is_int_token(s) {
        let v = int_token_val(s);
        if 1 <= v <= MAX_LEVEL {
            Some(Action::Attack(v as u8))
        } else if -(MAX_LEVEL as int) <= v <= -1 {
            Some(Action::Defend((-v) as u8))
        } else {
            None
        }
    } else {
        None
    }
}

impl Action {
    /// Parses one textual token into an action, per the encoding
    /// [`parse_spec`] states. Failure is recoverable: the caller re-prompts.
    #[verifier::loop_isolation(false)]
    pub fn parse(s: &str) -> (r: Result<Action, ParseActionError>)
        ensures
            r matches Ok(a) ==> parse_spec(s@) == Some(a),
            r is Err <==> parse_spec(s@) is None,
    {
        let n = s.unicode_len();
        if n == 1 {
            let c = s.get_char(0);
            if c == 'g' {
                proof {
                    reveal_strlit("g");
                    assert(s@ =~= "g"@);
                }
                return Ok(Action::Guahao);
            }
            if c == 'q' {
                proof {
                    reveal_strlit("g");
                    reveal_strlit("q");
                    assert(s@ =~= "q"@);
                }
                return Ok(Action::Quanfang);
            }
            if c == 'f' {
                proof {
                    reveal_strlit("g");
                    reveal_strlit("q");
                    reveal_strlit("f");
                    assert(s@ =~= "f"@);
                }
                return Ok(Action::Fantan);
            }
        }
        proof {
            reveal_strlit("g");
            reveal_strlit("q");
            reveal_strlit("f");
            assert(s@ != "g"@ && s@ != "q"@ && s@ != "f"@);
        }
        let mut start: usize = 0;
        let mut negative = false;
        if n > 0 {
            let c0 = s.get_char(0);
            if c0 == '-' {
                negative = true;
                start = 1;
            } else if c0 == '+' {
                start = 1;
            }
        }
        let ghost digits = s@.subrange(start as int, n as int);
        let mut val: u16 = 0;
        let mut too_big = false;
        let mut j = start;
        while j < n
            invariant
                start <= j <= n,
                val <= MAX_LEVEL as u16,
                all_digits(s@.subrange(start as int, j as int)),
                !too_big ==> val as int == digits_val(s@.subrange(start as int, j as int)),
                too_big ==> digits_val(s@.subrange(start as int, j as int)) > MAX_LEVEL as int,
            decreases n - j,
        {
            let c = s.get_char(j);
            let cv = c as u32;
            if cv < 48 || cv > 57 {
                proof {
                    assert(!is_digit(s@[j as int]));
                    if s@.len() > 0 && (s@[0] == '-' || s@[0] == '+') {
                        assert(s@.drop_first()[j - 1] == s@[j as int]);
                        assert(!all_digits(s@.drop_first()));
                    } else {
                        assert(!all_digits(s@));
                    }
                }
                return Err(ParseActionError);
            }
            let d = (cv - 48) as u16;
            let t = val * 10 + d;
            proof {
                let pre = s@.subrange(start as int, j as int);
                let post = s@.subrange(start as int, j + 1);
                assert(post =~= pre.push(s@[j as int]));
                assert(post.drop_last() =~= pre);
                assert(digits_val(post) == digits_val(pre) * 10 + digit_val(s@[j as int]));
            }
            if too_big || t > MAX_LEVEL as u16 {
                too_big = true;
            } else {
                val = t;
            }
            j = j + 1;
        }
        proof {
            assert(s@.subrange(start as int, n as int) =~= digits);
            if start == 1 {
                assert(digits =~= s@.drop_first());
            } else {
                assert(digits =~= s@);
            }
        }
        if too_big || val == 0 {
            return Err(ParseActionError);
        }
        if negative {
            proof {
                assert(parse_spec(s@) == Some(Action::Defend(val as u8)));
            }
            Ok(Action::Defend(val as u8))
        } else {
            proof {
                assert(parse_spec(s@) == Some(Action::Attack(val as u8)));
            }
            Ok(Action::Attack(val as u8))
        }
    }
}

impl core::str::FromStr for Action {
    type Err = ParseActionError;

    fn from_str(s: &str) -> Result<Action, ParseActionError> {
        Action::parse(s)
    }
}

/// The decimal digit characters, least value first.
pub open spec fn digit_char(d: int) -> char {
    if d == 0 {
        '0'
    } else if d == 1 {
        '1'
    } else if d == 2 {
        '2'
    } else if d == 3 {
        '3'
    } else if d == 4 {
        '4'
    } else if d == 5 {
        '5'
    } else if d == 6 {
        '6'
    } else if d == 7 {
        '7'
    } else if d == 8 {
        '8'
    } else {
        '9'
    }
}

/// The decimal rendering of a non-negative value, most significant digit
/// first, no leading zero except for the value zero itself.
pub open spec fn dec_digits(n: int) -> Seq<char>
    decreases n,
{
    if n < 10 {
        seq![digit_char(n)]
    } else {
        dec_digits(n / 10).push(digit_char(n % 10))
    }
}

/// One decimal digit as a string slice.
fn digit_str(d: u8) -> (s: &'static str)
    requires
        d < 10,
    ensures
        s@ == seq![digit_char(d as int)],
{
    if d == 0 {
        proof {
            reveal_strlit("0");
            assert("0"@ =~= seq![digit_char(0)]);
        }
        "0"
    } else if d == 1 {
        proof {
            reveal_strlit("1");
            assert("1"@ =~= seq![digit_char(1)]);
        }
        "1"
    } else if d == 2 {
        proof {
            reveal_strlit("2");
            assert("2"@ =~= seq![digit_char(2)]);
        }
        "2"
    } else if d == 3 {
        proof {
            reveal_strlit("3");
            assert("3"@ =~= seq![digit_char(3)]);
        }
        "3"
    } else if d == 4 {
        proof {
            reveal_strlit("4");
            assert("4"@ =~= seq![digit_char(4)]);
        }
        "4"
    } else if d == 5 {
        proof {
            reveal_strlit("5");
            assert("5"@ =~= seq![digit_char(5)]);
        }
        "5"
    } else if d == 6 {
        proof {
            reveal_strlit("6");
            assert("6"@ =~= seq![digit_char(6)]);
        }
        "6"
    } else if d == 7 {
        proof {
            reveal_strlit("7");
            assert("7"@ =~= seq![digit_char(7)]);
        }
        "7"
    } else if d == 8 {
        proof {
            reveal_strlit("8");
            assert("8"@ =~= seq![digit_char(8)]);
        }
        "8"
    } else {
        proof {
            reveal_strlit("9");
            assert("9"@ =~= seq![digit_char(9)]);
        }
        "9"
    }
}

/// Renders a level in decimal.
fn dec_str(n: u8) -> (s: String)
    ensures
        s@ == dec_digits(n as int),
    decreases n,
{
    if n < 10 {
        String::from_str(digit_str(n))
    } else {
        let mut s = dec_str(n / 10);
        s.append(digit_str(n % 10));
        proof {
            assert(s@ =~= dec_digits(n as int));
        }
        s
    }
}

/// The decimal rendering of a signed value.
pub open spec fn int_digits(n: int) -> Seq<char> {
    if n < 0 {
        seq!['-'] + dec_digits(-n)
    } else {
        dec_digits(n)
    }
}

/// Renders a signed component in decimal.
fn signed_str(n: i8) -> (s: String)
    ensures
        s@ == int_digits(n as int),
{
    if n >= 0 {
        dec_str(n as u8)
    } else {
        let mut s = String::from_str("-");
        let mag = (-(n as i16)) as u8;
        s.append(dec_str(mag).as_str());
        proof {
            reveal_strlit("-");
            assert(s@ =~= seq!['-'] + dec_digits(mag as int));
        }
        s
    }
}

/// The canonical rendering of a resource vector: each balance in catalog
/// order under its token's name.
pub open spec fn resource_label_spec(v: Seq<int>) -> Seq<char> {
    "挂号"@ + int_digits(v[0]) + "，全防"@ + int_digits(v[1]) + "，反弹"@ + int_digits(v[2])
}

impl Resource {
    /// The display form of this vector, as [`resource_label_spec`] states it:
    /// all three balances are fully recoverable from it.
    pub fn label(&self) -> (s: String)
        ensures
            s@ == resource_label_spec(self@),
    {
        let mut s = String::from_str("挂号");
        s.append(signed_str(self.registration).as_str());
        s.append("，全防");
        s.append(signed_str(self.full_defense).as_str());
        s.append("，反弹");
        s.append(signed_str(self.reflect).as_str());
        proof {
            assert(s@ =~= resource_label_spec(self@));
        }
        s
    }
}

/// The canonical human-readable name of each move: the three level-1/2/3
/// attacks and defenses have idiomatic names, higher levels fall back to a
/// generic "attack N" / "defend N" rendering.
pub open spec fn label_spec(a: Action) -> Seq<char> {
    match a {
        Action::Guahao => "挂号"@,
        Action::Attack(n) => if n == 1 {
            "喂药"@
        } else if n == 2 {
            "打针"@
        } else if n == 3 {
            "开刀"@
        } else {
            "攻击"@ + dec_digits(n as int)
        },
        Action::Defend(n) => if n == 1 {
            "捂嘴"@
        } else if n == 2 {
            "捂肩"@
        } else if n == 3 {
            "捂腹"@
        } else {
            "防御"@ + dec_digits(n as int)
        },
        Action::Quanfang => "全防"@,
        Action::Fantan => "反弹"@,
    }
}

impl Action {
    /// The display name of this move, as [`label_spec`] states it. Wording is
    /// a presentation concern; the level and the move kind are fully
    /// recoverable from it.
    pub fn label(&self) -> (s: String)
        ensures
            s@ == label_spec(*self),
    {
        match self {
            Action::Guahao => String::from_str("挂号"),
            Action::Attack(n) => {
                if *n == 1 {
                    String::from_str("喂药")
                } else if *n == 2 {
                    String::from_str("打针")
                } else if *n == 3 {
                    String::from_str("开刀")
                } else {
                    let mut s = String::from_str("攻击");
                    let num = dec_str(*n);
                    s.append(num.as_str());
                    s
                }
            },
            Action::Defend(n) => {
                if *n == 1 {
                    String::from_str("捂嘴")
                } else if *n == 2 {
                    String::from_str("捂肩")
                } else if *n == 3 {
                    String::from_str("捂腹")
                } else {
                    let mut s = String::from_str("防御");
                    let num = dec_str(*n);
                    s.append(num.as_str());
                    s
                }
            },
            Action::Quanfang => String::from_str("全防"),
            Action::Fantan => String::from_str("反弹"),
        }
    }
}

/// Registering never depletes a resting vector: its cost only grants a
/// registration token, and the other components are untouched, so applying it
/// to any vector with non-negative components succeeds and raises the
/// registration balance by one.
pub proof fn lemma_guahao_grants(v: Seq<int>)
    requires
        vec_wf(v),
    ensures
        !depletes(v, cost_spec(Action::Guahao)),
        sub_components(v, cost_spec(Action::Guahao)) == seq![v[0] + 1, v[1], v[2]],
{
    assert(sub_components(v, cost_spec(Action::Guahao)) =~= seq![v[0] + 1, v[1], v[2]]);
}

} // verus!
