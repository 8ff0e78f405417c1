//! Route labels such as `3G`, `N3B` or `56 DOBROVA - ŠOLSKA`, decomposed into
//! prefix, number, suffix and trailing text.

use unicode_segmentation::UnicodeSegmentation;
use vstd::prelude::*;

use crate::errors::RouteNameParseError;
use crate::text::{
    all_digits, decimal, decimal_string, digit_value, digits_value, is_digit_char,
    lemma_decimal, lemma_digits_value_append, lemma_parse_decimal, parse_decimal, parse_digits_spec,
    parse_u32, parse_u32_spec,
    push_char, push_decimal, push_str,
};

verus! {

/// The extended grapheme clusters of a string, as `unicode_segmentation` splits it.
pub uninterp spec fn graphemes_of(s: Seq<char>) -> Seq<Seq<char>>;

/// Whether a character has the Unicode `Alphabetic` property.
pub uninterp spec fn is_alphabetic_char(c: char) -> bool;

/// The Unicode upper-case mapping of a string.
pub uninterp spec fn upper_of(s: Seq<char>) -> Seq<char>;

pub open spec fn views_of(v: Seq<String>) -> Seq<Seq<char>> {
    v.map_values(|g: String| g@)
}

/// Relies on `unicode_segmentation::UnicodeSegmentation::graphemes(true)`: the
/// extended grapheme clusters of `s`, in order; each is non-empty and together
/// they make up `s`.
#[verifier::external_body]
fn graphemes(s: &str) -> (r: Vec<String>)
    ensures
        views_of(r@) == graphemes_of(s@),
        views_of(r@).flatten() == s@,
        forall|i: int| 0 <= i < r@.len() ==> (#[trigger] r@[i])@.len() > 0,
{
    s.graphemes(true).map(|g| g.to_string()).collect()
}

/// Relies on `char::is_alphabetic`.
#[verifier::external_body]
fn char_is_alphabetic(c: char) -> (r: bool)
    ensures
        r == is_alphabetic_char(c),
{
    c.is_alphabetic()
}

/// Relies on `str::to_uppercase`.
#[verifier::external_body]
fn uppercase(s: &str) -> (r: String)
    ensures
        r@ == upper_of(s@),
{
    s.to_uppercase()
}

/// The abstract value of a route: optional prefix, number, optional suffix,
/// optional trailing text.
pub struct RouteLabel {
    pub prefix: Option<Seq<char>>,
    pub number: u32,
    pub suffix: Option<Seq<char>>,
    pub additional_info: Option<Seq<char>>,
}

pub open spec fn opt_view(o: Option<String>) -> Option<Seq<char>> {
    match o {
        Some(s) => Some(s@),
        None => None,
    }
}

pub open spec fn opt_text(o: Option<Seq<char>>) -> Seq<char> {
    match o {
        Some(s) => s,
        None => Seq::empty(),
    }
}

/// A grapheme made of decimal digits (in practice: one digit).
pub open spec fn is_numeric(g: Seq<char>) -> bool {
    parse_digits_spec(g) is Some
}

/// The index of the first grapheme at or after `i` that is not numeric, or the
/// length when there is none.
pub open spec fn first_non_numeric_from(gs: Seq<Seq<char>>, i: nat) -> nat
    decreases gs.len() - i,
{
    if i >= gs.len() {
        gs.len()
    } else if !is_numeric(gs[i as int]) {
        i
    } else {
        first_non_numeric_from(gs, i + 1)
    }
}

pub open spec fn all_alphabetic(g: Seq<char>) -> bool {
    forall|i: int| 0 <= i < g.len() ==> is_alphabetic_char(#[trigger] g[i])
}

/// What follows an optional prefix: decimal digits, then either nothing, a single
/// alphabetic grapheme (the suffix), or trailing text that starts at the first
/// grapheme that is not a digit.
pub open spec fn parse_after_prefix(prefix: Option<Seq<char>>, rest: Seq<char>) -> Option<
    RouteLabel,
> {
    if parse_digits_spec(rest) is Some {
        Some(
            RouteLabel {
                prefix,
                number: parse_digits_spec(rest)->0,
                suffix: None,
                additional_info: None,
            },
        )
    } else {
        let gs = graphemes_of(rest);
        let k = first_non_numeric_from(gs, 0);
        if k >= gs.len() {
            None
        } else {
            let digits = gs.subrange(0, k as int).flatten();
            match parse_digits_spec(digits) {
                None => None,
                Some(n) => if k + 1 == gs.len() && all_alphabetic(gs[k as int]) {
                    Some(
                        RouteLabel {
                            prefix,
                            number: n,
                            suffix: Some(gs[k as int]),
                            additional_info: None,
                        },
                    )
                } else {
                    Some(
                        RouteLabel {
                            prefix,
                            number: n,
                            suffix: None,
                            additional_info: Some(gs.subrange(k as int, gs.len() as int).flatten()),
                        },
                    )
                },
            }
        }
    }
}

/// The route a label denotes, or none when the label does not follow the grammar.
/// A label that reads as a number as a whole is just that number; otherwise a
/// first grapheme that is not numeric is the prefix, upper-cased.
#[verifier::opaque]
pub open spec fn parse_label(s: Seq<char>) -> Option<RouteLabel> {
    if s.len() == 0 {
        None
    } else if parse_u32_spec(s) is Some {
        Some(
            RouteLabel {
                prefix: None,
                number: parse_u32_spec(s)->0,
                suffix: None,
                additional_info: None,
            },
        )
    } else {
        let first = graphemes_of(s)[0];
        if !is_numeric(first) {
            parse_after_prefix(Some(upper_of(first)), s.subrange(first.len() as int, s.len() as int))
        } else {
            parse_after_prefix(None, s)
        }
    }
}

/// The canonical label of a route: prefix, number, suffix, then a space and the
/// trailing text.
pub open spec fn format_label(r: RouteLabel) -> Seq<char> {
    opt_text(r.prefix) + decimal(r.number as nat) + opt_text(r.suffix) + match r.additional_info {
        Some(t) => seq![' '] + t,
        None => Seq::empty(),
    }
}

/// Each character of `s` as a grapheme of its own.
pub open spec fn singletons(s: Seq<char>) -> Seq<Seq<char>> {
    Seq::new(s.len(), |i: int| seq![s[i]])
}

pub open spec fn opt_grapheme(o: Option<Seq<char>>) -> Seq<Seq<char>> {
    match o {
        Some(g) => seq![g],
        None => Seq::empty(),
    }
}

/// The labels whose canonical form reads back as the same route: no trailing
/// text; a prefix, if any, is a single grapheme that is not numeric, that
/// upper-casing keeps, and whose canonical label does not read as a bare
/// number; a suffix, if any, is non-empty; and after the prefix the canonical
/// label splits into one grapheme per digit followed by the suffix.
pub open spec fn canonical_form_is_stable(r: RouteLabel) -> bool {
    let tail = decimal(r.number as nat) + opt_text(r.suffix);
    &&& r.additional_info is None
    &&& (r.prefix matches Some(p) ==> {
        &&& upper_of(p) == p
        &&& !is_numeric(p)
        &&& parse_u32_spec(format_label(r)) is None
        &&& graphemes_of(format_label(r)).len() > 0
        &&& graphemes_of(format_label(r))[0] == p
    })
    &&& (r.suffix matches Some(x) ==> x.len() > 0)
    &&& (r.suffix is Some ==> graphemes_of(tail) == singletons(decimal(r.number as nat))
        + opt_grapheme(r.suffix))
}

proof fn lemma_flatten_singletons(s: Seq<char>)
    ensures
        singletons(s).flatten() == s,
    decreases s.len(),
{
    if s.len() > 0 {
        assert(singletons(s).drop_first() =~= singletons(s.drop_first()));
        lemma_flatten_singletons(s.drop_first());
        assert(s =~= seq![s[0]] + s.drop_first());
    }
}

proof fn lemma_digit_is_numeric(c: char)
    requires
        is_digit_char(c),
    ensures
        is_numeric(seq![c]),
{
    let g = seq![c];
    assert(g.drop_last() =~= Seq::<char>::empty());
    assert(g.last() == c);
    assert(digits_value(Seq::<char>::empty()) == 0);
    assert(digits_value(g) == digits_value(g.drop_last()) * 10 + digit_value(g.last()));
    assert(all_digits(g));
}

proof fn lemma_first_non_numeric_after_digits(d: Seq<char>, x: Seq<char>, i: nat)
    requires
        all_digits(d),
        !is_numeric(x),
        i <= d.len(),
    ensures
        first_non_numeric_from(singletons(d) + seq![x], i) == d.len(),
    decreases d.len() - i,
{
    let gs = singletons(d) + seq![x];
    if i < d.len() {
        lemma_digit_is_numeric(d[i as int]);
        assert(gs[i as int] == seq![d[i as int]]);
        lemma_first_non_numeric_after_digits(d, x, i + 1);
    } else {
        assert(gs[i as int] == x);
    }
}

/// A canonical number followed by a non-empty grapheme that is not numeric
/// does not read as a number.
proof fn lemma_digits_then_grapheme_not_number(n: u32, x: Seq<char>)
    requires
        x.len() > 0,
        !is_numeric(x),
    ensures
        parse_u32_spec(decimal(n as nat) + x) is None,
        parse_digits_spec(decimal(n as nat) + x) is None,
{
    let d = decimal(n as nat);
    lemma_decimal(n as nat);
    let f = d + x;
    assert(f[0] == d[0]);
    if all_digits(f) {
        assert forall|i: int| 0 <= i < x.len() implies is_digit_char(#[trigger] x[i]) by {
            assert(f[d.len() + i] == x[i]);
        }
        lemma_digits_value_append(d, x);
        assert(x[0] != '+');
    }
}

/// The label read after a prefix has been taken off, for a canonical tail.
proof fn lemma_parse_canonical_tail(r: RouteLabel, p: Option<Seq<char>>)
    requires
        canonical_form_is_stable(r),
        r.suffix matches Some(x) ==> !is_numeric(x) && all_alphabetic(x),
    ensures
        parse_after_prefix(p, decimal(r.number as nat) + opt_text(r.suffix)) == Some(
            RouteLabel { prefix: p, number: r.number, suffix: r.suffix, additional_info: None },
        ),
{
    let d = decimal(r.number as nat);
    lemma_parse_decimal(r.number);
    lemma_decimal(r.number as nat);
    match r.suffix {
        None => {
            assert(d + opt_text(r.suffix) =~= d);
        },
        Some(x) => {
            lemma_digits_then_grapheme_not_number(r.number, x);
            let gs = singletons(d) + seq![x];
            assert(opt_grapheme(r.suffix) == seq![x]);
            lemma_first_non_numeric_after_digits(d, x, 0);
            assert(gs.subrange(0, d.len() as int) =~= singletons(d));
            lemma_flatten_singletons(d);
            assert(gs[d.len() as int] == x);
        },
    }
}

/// Formatting a parsed label and parsing the result gives the same route, for
/// every label whose canonical form is stable.
pub proof fn lemma_round_trip(s: Seq<char>)
    requires
        parse_label(s) is Some,
        canonical_form_is_stable(parse_label(s)->0),
    ensures
        parse_label(format_label(parse_label(s)->0)) == parse_label(s),
{
    reveal(parse_label);
    let r = parse_label(s)->0;
    let d = decimal(r.number as nat);
    let f = format_label(r);
    let tail = d + opt_text(r.suffix);
    lemma_decimal(r.number as nat);
    lemma_parse_decimal(r.number);
    assert(f =~= opt_text(r.prefix) + tail);
    // A suffix is a grapheme that was not numeric and is alphabetic.
    if s.len() > 0 && parse_u32_spec(s) is None {
        let first = graphemes_of(s)[0];
        let rest = if !is_numeric(first) {
            s.subrange(first.len() as int, s.len() as int)
        } else {
            s
        };
        if parse_digits_spec(rest) is None {
            let gs = graphemes_of(rest);
            let k = first_non_numeric_from(gs, 0);
            if r.suffix is Some {
                assert(r.suffix == Some(gs[k as int]));
                lemma_first_non_numeric_is(gs, 0);
            }
        }
    }
    match r.prefix {
        Some(p) => {
            lemma_parse_canonical_tail(r, Some(p));
            assert(f.subrange(p.len() as int, f.len() as int) =~= tail);
        },
        None => {
            assert(f =~= tail);
            match r.suffix {
                None => {
                    assert(f =~= d);
                },
                Some(x) => {
                    lemma_digits_then_grapheme_not_number(r.number, x);
                    lemma_digit_is_numeric(d[0]);
                    assert(graphemes_of(f)[0] == seq![d[0]]);
                    lemma_parse_canonical_tail(r, None);
                },
            }
        },
    }
}

proof fn lemma_first_non_numeric_is(gs: Seq<Seq<char>>, i: nat)
    requires
        first_non_numeric_from(gs, i) < gs.len(),
    ensures
        !is_numeric(gs[first_non_numeric_from(gs, i) as int]),
    decreases gs.len() - i,
{
    if i < gs.len() && is_numeric(gs[i as int]) {
        lemma_first_non_numeric_is(gs, i + 1);
    }
}

/// A full route, e.g. `11B` or `N3`.
#[derive(PartialEq, Eq, Debug, Hash)]
pub struct BusRoute {
    pub prefix: Option<String>,
    pub base_route_number: u32,
    pub suffix: Option<String>,
    pub additional_info: Option<String>,
}

impl View for BusRoute {
    type V = RouteLabel;

    open spec fn view(&self) -> RouteLabel {
        RouteLabel {
            prefix: opt_view(self.prefix),
            number: self.base_route_number,
            suffix: opt_view(self.suffix),
            additional_info: opt_view(self.additional_info),
        }
    }
}

pub fn clone_opt_string(o: &Option<String>) -> (r: Option<String>)
    ensures
        r == *o,
{
    match o {
        Some(s) => Some(s.clone()),
        None => None,
    }
}

fn opt_string_eq(a: &Option<String>, b: &Option<String>) -> (r: bool)
    ensures
        r == (opt_view(*a) == opt_view(*b)),
{
    match (a, b) {
        (Some(x), Some(y)) => *x == *y,
        (None, None) => true,
        _ => false,
    }
}

impl Clone for BusRoute {
    fn clone(&self) -> (r: Self)
        ensures
            r == *self,
    {
        BusRoute {
            prefix: clone_opt_string(&self.prefix),
            base_route_number: self.base_route_number,
            suffix: clone_opt_string(&self.suffix),
            additional_info: clone_opt_string(&self.additional_info),
        }
    }
}

/// The concatenation of `gs[from..to]`.
fn concat_range(gs: &Vec<String>, from: usize, to: usize) -> (r: String)
    requires
        from <= to <= gs@.len(),
    ensures
        r@ == views_of(gs@).subrange(from as int, to as int).flatten(),
{
    let mut r = String::new();
    let mut i = from;
    while i < to
        invariant
            from <= i <= to <= gs@.len(),
            r@ == views_of(gs@).subrange(from as int, i as int).flatten(),
        decreases to - i,
    {
        let ghost before = views_of(gs@).subrange(from as int, i as int);
        push_str(&mut r, gs[i].as_str());
        proof {
            before.lemma_flatten_push(gs@[i as int]@);
            assert(views_of(gs@).subrange(from as int, i + 1) =~= before.push(gs@[i as int]@));
        }
        i = i + 1;
    }
    r
}

impl BusRoute {
    /// Finds the first grapheme of `value` that is not numeric and returns the
    /// graphemes with its index. There is none when `value` reads as a number as
    /// a whole, or when every grapheme is numeric.
    fn get_first_non_numeric_grapheme(value: &str) -> (r: Option<(Vec<String>, usize)>)
        ensures
            parse_digits_spec(value@) is Some ==> r is None,
            parse_digits_spec(value@) is None && r is None ==> first_non_numeric_from(
                graphemes_of(value@),
                0,
            ) >= graphemes_of(value@).len(),
            parse_digits_spec(value@) is None && r is Some ==> {
                &&& views_of((r->0).0@) == graphemes_of(value@)
                &&& (r->0).1 == first_non_numeric_from(graphemes_of(value@), 0)
                &&& (r->0).1 < (r->0).0@.len()
            },
    {
        if parse_decimal(value).is_some() {
            return None;
        }
        let gs = graphemes(value);
        let ghost g = graphemes_of(value@);
        let mut i: usize = 0;
        while i < gs.len()
            invariant
                g == graphemes_of(value@),
                views_of(gs@) == g,
                g.len() == gs@.len(),
                parse_digits_spec(value@) is None,
                i <= gs@.len(),
                first_non_numeric_from(g, 0) == first_non_numeric_from(g, i as nat),
            decreases gs@.len() - i,
        {
            if parse_decimal(gs[i].as_str()).is_none() {
                assert(g[i as int] == gs@[i as int]@);
                assert(!is_numeric(g[i as int]));
                assert(first_non_numeric_from(g, i as nat) == i);
                return Some((gs, i));
            }
            assert(g[i as int] == gs@[i as int]@);
            i = i + 1;
        }
        None
    }

    /// Whether every character of `value` is alphabetic.
    fn is_str_alphabetic(value: &str) -> (r: bool)
        ensures
            r == all_alphabetic(value@),
    {
        let len = value.unicode_len();
        let mut i: usize = 0;
        while i < len
            invariant
                len == value@.len(),
                i <= len,
                forall|j: int| 0 <= j < i ==> is_alphabetic_char(#[trigger] value@[j]),
            decreases len - i,
        {
            if !char_is_alphabetic(value.get_char(i)) {
                return false;
            }
            i = i + 1;
        }
        true
    }

    /// Splits a route label into `(prefix, number, suffix, trailing text)`.
    #[allow(clippy::type_complexity)]
    fn components_from_route_name(full_route_name: String) -> (r: Result<
        (Option<String>, u32, Option<String>, Option<String>),
        RouteNameParseError,
    >)
        ensures
            match r {
                Ok(c) => parse_label(full_route_name@) == Some(
                    RouteLabel {
                        prefix: opt_view(c.0),
                        number: c.1,
                        suffix: opt_view(c.2),
                        additional_info: opt_view(c.3),
                    },
                ),
                Err(e) => parse_label(full_route_name@) is None && e.route_name@
                    == full_route_name@,
            },
    {
        proof {
            reveal(parse_label);
        }
        let len = full_route_name.unicode_len();
        if len == 0 {
            return Err(RouteNameParseError::new(full_route_name));
        }
        if let Some(number) = parse_u32(full_route_name.as_str()) {
            return Ok((None, number, None, None));
        }
        let gs = graphemes(full_route_name.as_str());
        proof {
            if gs@.len() == 0 {
                assert(views_of(gs@) =~= Seq::<Seq<char>>::empty());
            }
        }
        let ghost s = full_route_name@;
        let ghost g = graphemes_of(s);
        assert(g[0] == gs@[0]@);
        let (prefix, rest): (Option<String>, String) = if parse_decimal(gs[0].as_str()).is_none() {
            let first_len = gs[0].unicode_len();
            proof {
                assert(g.flatten() == g[0] + g.drop_first().flatten());
                assert(s.subrange(0, first_len as int) =~= g[0]);
            }
            let rest = full_route_name.as_str().substring_char(first_len, len).to_owned();
            (Some(uppercase(gs[0].as_str())), rest)
        } else {
            (None, full_route_name.clone())
        };
        let ghost p = opt_view(prefix);
        assert(parse_label(s) == parse_after_prefix(p, rest@));
        match Self::get_first_non_numeric_grapheme(rest.as_str()) {
            None => match parse_decimal(rest.as_str()) {
                Some(number) => Ok((prefix, number, None, None)),
                None => Err(RouteNameParseError::new(full_route_name)),
            },
            Some((gs2, k)) => {
                let digits = concat_range(&gs2, 0, k);
                match parse_decimal(digits.as_str()) {
                    None => Err(RouteNameParseError::new(full_route_name)),
                    Some(number) => {
                        assert(gs2@[k as int]@ == graphemes_of(rest@)[k as int]);
                        if k == gs2.len() - 1 && Self::is_str_alphabetic(gs2[k].as_str()) {
                            Ok((prefix, number, Some(gs2[k].clone()), None))
                        } else {
                            let n = gs2.len();
                            let trailing = concat_range(&gs2, k, n);
                            Ok((prefix, number, None, Some(trailing)))
                        }
                    },
                }
            },
        }
    }

    /// Parses a route label.
    pub fn from_route_name(route_name: &str) -> (r: Result<Self, RouteNameParseError>)
        ensures
            match r {
                Ok(route) => parse_label(route_name@) == Some(route@),
                Err(e) => parse_label(route_name@) is None && e.route_name@ == route_name@,
            },
    {
        let (prefix, base_route_number, suffix, additional_info) =
            Self::components_from_route_name(route_name.to_owned())?;
        Ok(Self { prefix, base_route_number, suffix, additional_info })
    }

    #[inline]
    pub fn from_components(
        prefix: Option<String>,
        base_route_number: u32,
        suffix: Option<String>,
        additional_info: Option<String>,
    ) -> (r: Self)
        ensures
            r.prefix == prefix,
            r.base_route_number == base_route_number,
            r.suffix == suffix,
            r.additional_info == additional_info,
    {
        Self { prefix, base_route_number, suffix, additional_info }
    }

    /// The route without its prefix, suffix and trailing text.
    pub fn to_base_route(&self) -> (r: BaseBusRoute)
        ensures
            r.number() == self.base_route_number,
    {
        BaseBusRoute::new_from_number(self.base_route_number)
    }

    /// Whether two routes are the same route.
    pub fn same_as(&self, other: &BusRoute) -> (r: bool)
        ensures
            r == (self@ == other@),
    {
        self.base_route_number == other.base_route_number && opt_string_eq(
            &self.prefix,
            &other.prefix,
        ) && opt_string_eq(&self.suffix, &other.suffix) && opt_string_eq(
            &self.additional_info,
            &other.additional_info,
        )
    }

    /// The canonical label of the route.
    pub fn to_string(&self) -> (r: String)
        ensures
            r@ == format_label(self@),
    {
        let mut s = String::new();
        if let Some(prefix) = &self.prefix {
            push_str(&mut s, prefix.as_str());
        }
        push_decimal(&mut s, self.base_route_number);
        if let Some(suffix) = &self.suffix {
            push_str(&mut s, suffix.as_str());
        }
        if let Some(info) = &self.additional_info {
            push_char(&mut s, ' ');
            push_str(&mut s, info.as_str());
        }
        proof {
            let r = self@;
            let extra = match r.additional_info {
                Some(t) => seq![' '] + t,
                None => Seq::<char>::empty(),
            };
            assert(s@ =~= opt_text(r.prefix) + decimal(r.number as nat) + opt_text(r.suffix) + extra);
        }
        s
    }
}

/// A route number without prefix or suffix, e.g. `11`: the key that groups the
/// variants of one route.
#[derive(Clone, Copy, PartialEq, Eq, Debug, Hash, Structural)]
pub struct BaseBusRoute(u32);

impl BaseBusRoute {
    pub closed spec fn number(&self) -> u32 {
        self.0
    }

    /// Two base routes are equal exactly when their numbers are.
    pub broadcast proof fn lemma_number_determines(a: BaseBusRoute, b: BaseBusRoute)
        ensures
            #[trigger] a.number() == #[trigger] b.number() <==> a == b,
    {
    }

    /// Parses a base route, which is a bare number.
    #[inline]
    pub fn new_from_str(base_bus_route_name: &str) -> (r: Result<Self, RouteNameParseError>)
        ensures
            match r {
                Ok(b) => parse_u32_spec(base_bus_route_name@) == Some(b.number()),
                Err(e) => parse_u32_spec(base_bus_route_name@) is None && e.route_name@
                    == base_bus_route_name@,
            },
    {
        match parse_u32(base_bus_route_name) {
            Some(bus_number) => Ok(Self(bus_number)),
            None => Err(RouteNameParseError::new(base_bus_route_name.to_owned())),
        }
    }

    #[inline]
    pub fn new_from_number(bus_number: u32) -> (r: Self)
        ensures
            r.number() == bus_number,
    {
        Self(bus_number)
    }

    /// Routes with the same number share their base route, whatever their
    /// prefix, suffix or trailing text differ in; and only the number decides.
    pub proof fn lemma_base_route_grouping(
        a: BusRoute,
        b: BusRoute,
        base_a: BaseBusRoute,
        base_b: BaseBusRoute,
    )
        requires
            base_a.number() == a.base_route_number,
            base_b.number() == b.base_route_number,
        ensures
            base_a == base_b <==> a.base_route_number == b.base_route_number,
    {
        BaseBusRoute::lemma_number_determines(base_a, base_b);
    }

    /// The route number.
    pub fn get(&self) -> (r: u32)
        ensures
            r == self.number(),
    {
        self.0
    }

    /// The route number in decimal.
    pub fn to_string(&self) -> (r: String)
        ensures
            r@ == decimal(self.number() as nat),
    {
        decimal_string(self.0)
    }
}

} // verus!
