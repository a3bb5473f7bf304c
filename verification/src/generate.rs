//! Build-time configuration: the options a crate offers, the environment
//! variables that set them, and the lines a build script prints for cargo.
//!
//! Reading the environment and printing the lines are left to the build
//! script; here the variables are matched to the options and the lines are
//! made.
use vstd::prelude::*;
use vstd::string::StrSliceExecFns;

verus! {

/// Appends a character to a string (`String::push`).
#[verifier::external_body]
fn push_char(s: &mut String, c: char)
    ensures
        final(s)@ == old(s)@.push(c),
{
    s.push(c);
}

/// Configuration errors.
#[derive(Debug, Clone)]
pub enum Error {
    /// A parse error, with its message.
    Parse(String),
}

impl Error {
    /// A parse error with the given message.
    pub fn parse(message: String) -> (r: Self)
        ensures
            r matches Error::Parse(m) && m@ == message@,
    {
        Error::Parse(message)
    }

    /// The text the error shows when displayed: its message.
    pub fn message(&self) -> (r: String)
        ensures
            self matches Error::Parse(m) && r@ == m@,
    {
        match self {
            Error::Parse(m) => m.clone(),
        }
    }
}

/// The value of a configuration option.
#[derive(Debug, Clone)]
pub enum Value {
    /// A flag.
    Bool(bool),
    /// A number.
    Integer(i128),
    /// A text.
    String(String),
}

impl Value {
    /// A copy of the value.
    pub fn duplicate(&self) -> (r: Value)
        ensures
            r == *self,
    {
        match self {
            Value::Bool(b) => Value::Bool(*b),
            Value::Integer(i) => Value::Integer(*i),
            Value::String(s) => Value::String(s.clone()),
        }
    }
}

/// What a value is: a flag, a number, or a text.
pub enum ValueModel {
    Bool(bool),
    Integer(i128),
    Text(Seq<char>),
}

impl View for Value {
    type V = ValueModel;

    open spec fn view(&self) -> ValueModel {
        match self {
            Value::Bool(b) => ValueModel::Bool(*b),
            Value::Integer(i) => ValueModel::Integer(*i),
            Value::String(s) => ValueModel::Text(s@),
        }
    }
}

/// Whether `c` is a digit in base `radix` (10 or 16, either case).
pub open spec fn is_digit(c: char, radix: int) -> bool {
    ||| '0' <= c <= '9'
    ||| radix == 16 && ('a' <= c <= 'f' || 'A' <= c <= 'F')
}

/// The value of a digit.
pub open spec fn digit_num(c: char) -> int {
    if '0' <= c <= '9' {
        c as int - 48
    } else if 'a' <= c <= 'f' {
        c as int - 87
    } else {
        c as int - 55
    }
}

/// Whether `s` is a non-empty run of digits in base `radix`.
pub open spec fn digits_ok(s: Seq<char>, radix: int) -> bool {
    s.len() > 0 && forall|i: int| 0 <= i < s.len() ==> is_digit(#[trigger] s[i], radix)
}

/// The number that the digits `s` write in base `radix`.
pub open spec fn digits_value(s: Seq<char>, radix: int) -> int
    decreases s.len(),
{
    if s.len() == 0 {
        0
    } else {
        digits_value(s.drop_last(), radix) * radix + digit_num(s.last())
    }
}

/// The number that `s` writes in base `radix`, with an optional sign `+`
/// or `-`, if it fits in an `i128`.
pub open spec fn signed_of(s: Seq<char>, radix: int) -> Option<i128> {
    let neg = s.len() > 0 && s[0] == '-';
    let body = if s.len() > 0 && (s[0] == '-' || s[0] == '+') { s.drop_first() } else { s };
    if !digits_ok(body, radix) {
        None
    } else {
        let x = if neg { -digits_value(body, radix) } else { digits_value(body, radix) };
        if i128::MIN <= x <= i128::MAX { Some(x as i128) } else { None }
    }
}

/// The integer that a configuration text writes: in hexadecimal after `0x`,
/// else in decimal, with an optional sign; `None` when it writes none that
/// fits in an `i128`.
pub open spec fn integer_of(t: Seq<char>) -> Option<i128> {
    if t.len() >= 2 && t[0] == '0' && t[1] == 'x' {
        signed_of(t.subrange(2, t.len() as int), 16)
    } else {
        signed_of(t, 10)
    }
}

/// The largest magnitude of an `i128`: that of its minimum.
pub const MAGNITUDE_BOUND: u128 = 0x8000_0000_0000_0000_0000_0000_0000_0000;

/// A run of valid digits has a value at least that of each of its prefixes.
proof fn lemma_digits_grow(s: Seq<char>, radix: int, i: int)
    requires
        radix >= 1,
        0 <= i <= s.len(),
        forall|k: int| 0 <= k < s.len() ==> is_digit(#[trigger] s[k], radix),
    ensures
        digits_value(s.subrange(0, i), radix) <= digits_value(s, radix),
        0 <= digits_value(s, radix),
    decreases s.len(),
{
    if s.len() > 0 {
        let p = s.drop_last();
        assert forall|k: int| 0 <= k < p.len() implies is_digit(#[trigger] p[k], radix) by {
            assert(p[k] == s[k]);
        }
        assert(is_digit(s[s.len() - 1], radix));
        if i < s.len() {
            assert(s.subrange(0, i) =~= p.subrange(0, i));
            lemma_digits_grow(p, radix, i);
        } else {
            assert(s.subrange(0, i) =~= s);
            lemma_digits_grow(p, radix, 0);
        }
        lemma_digits_grow(p, radix, p.len() as int);
        let v = digits_value(p, radix);
        assert(v * radix >= v) by (nonlinear_arith)
            requires v >= 0, radix >= 1;
    }
}

/// The value of a digit, if `c` is one in base `radix`.
fn digit(c: char, radix: u32) -> (r: Option<u32>)
    requires
        radix == 10 || radix == 16,
    ensures
        r is Some == is_digit(c, radix as int),
        r matches Some(d) ==> d == digit_num(c) && d < radix,
{
    if '0' <= c && c <= '9' {
        Some((c as u32) - 48)
    } else if radix == 16 && 'a' <= c && c <= 'f' {
        Some((c as u32) - 87)
    } else if radix == 16 && 'A' <= c && c <= 'F' {
        Some((c as u32) - 55)
    } else {
        None
    }
}

/// The value of the digits `s[from..]` in base `radix`, if they are a
/// non-empty run of digits whose value is at most [`MAGNITUDE_BOUND`].
fn parse_digits(s: &str, from: usize, radix: u32) -> (r: Option<u128>)
    requires
        from <= s@.len(),
        radix == 10 || radix == 16,
    ensures
        ({
            let body = s@.subrange(from as int, s@.len() as int);
            match r {
                Some(v) => digits_ok(body, radix as int) && v == digits_value(body, radix as int) && v <= MAGNITUDE_BOUND,
                None => !digits_ok(body, radix as int) || digits_value(body, radix as int) > MAGNITUDE_BOUND,
            }
        }),
{
    let n = s.unicode_len();
    let ghost body = s@.subrange(from as int, s@.len() as int);
    if from >= n {
        return None;
    }
    let mut acc: u128 = 0;
    let mut i: usize = from;
    while i < n
        invariant
            from <= i <= n,
            n == s@.len(),
            body == s@.subrange(from as int, n as int),
            radix == 10 || radix == 16,
            acc == digits_value(body.subrange(0, i - from), radix as int),
            acc <= MAGNITUDE_BOUND,
            forall|k: int| 0 <= k < i - from ==> is_digit(#[trigger] body[k], radix as int),
        decreases n - i,
    {
        let c = s.get_char(i);
        assert(c == body[i - from]);
        let d = match digit(c, radix) {
            Some(d) => d,
            None => {
                return None;
            },
        };
        let ghost pre = body.subrange(0, i - from);
        let ghost next = body.subrange(0, i - from + 1);
        assert(next.drop_last() =~= pre);
        assert(digits_value(next, radix as int) == acc * radix + d);
        if acc > MAGNITUDE_BOUND / (radix as u128) {
            proof {
                let b = MAGNITUDE_BOUND as int;
                let r = radix as int;
                assert(acc * r + d > b) by (nonlinear_arith)
                    requires acc > b / r, r >= 1, d >= 0, b >= 0;
                if digits_ok(body, radix as int) {
                    lemma_digits_grow(body, radix as int, i - from + 1);
                }
            }
            return None;
        }
        proof {
            let b = MAGNITUDE_BOUND as int;
            let r = radix as int;
            assert(acc * r <= b) by (nonlinear_arith)
                requires acc <= b / r, r >= 1, b >= 0;
        }
        let v = acc * (radix as u128) + (d as u128);
        if v > MAGNITUDE_BOUND {
            proof {
                if digits_ok(body, radix as int) {
                    lemma_digits_grow(body, radix as int, i - from + 1);
                }
            }
            return None;
        }
        acc = v;
        i = i + 1;
    }
    assert(body.subrange(0, n - from) =~= body);
    Some(acc)
}

/// Parses an integer configuration value: in hexadecimal after `0x`, else
/// in decimal, with an optional sign.
pub fn parse_integer(t: &str) -> (r: Option<i128>)
    ensures
        r == integer_of(t@),
{
    let n = t.unicode_len();
    let (radix, start): (u32, usize) = if n >= 2 && t.get_char(0) == '0' && t.get_char(1) == 'x' { (16, 2) } else { (10, 0) };
    let ghost s = t@.subrange(start as int, n as int);
    assert(radix == 16 ==> s =~= t@.subrange(2, t@.len() as int));
    assert(radix == 10 ==> s =~= t@);
    let mut from = start;
    let mut neg = false;
    if from < n {
        let c = t.get_char(from);
        assert(c == s[0]);
        if c == '-' {
            neg = true;
            from = from + 1;
        } else if c == '+' {
            from = from + 1;
        }
    }
    let ghost body = t@.subrange(from as int, n as int);
    assert(s.len() > 0 && (s[0] == '-' || s[0] == '+') ==> body =~= s.drop_first());
    assert(!(s.len() > 0 && (s[0] == '-' || s[0] == '+')) ==> body =~= s);
    match parse_digits(t, from, radix) {
        None => None,
        Some(v) => {
            if neg {
                if v == MAGNITUDE_BOUND {
                    Some(i128::MIN)
                } else {
                    Some(-(v as i128))
                }
            } else {
                if v == MAGNITUDE_BOUND {
                    None
                } else {
                    Some(v as i128)
                }
            }
        },
    }
}

/// Whether `a` and `b` are the same text.
fn str_eq(a: &str, b: &str) -> (r: bool)
    ensures
        r == (a@ == b@),
{
    if a.unicode_len() != b.unicode_len() {
        return false;
    }
    let r = starts_with(a, b);
    assert(a@.subrange(0, a@.len() as int) =~= a@);
    r
}

/// The message of a flag that does not parse.
pub open spec fn bool_error(t: Seq<char>) -> Seq<char> {
    "Expected 'true' or 'false', found: '"@ + t + "'"@
}

/// The message of a number that does not parse.
pub open spec fn integer_error(t: Seq<char>) -> Seq<char> {
    "Expected valid integer value, found: '"@ + t + "'"@
}

/// What the text `t` sets a value of the kind of `current` to, or the
/// message of why it does not parse: a flag is `true` or `false`, a number
/// is as [`integer_of`] reads it, and a text is taken as it is.
pub open spec fn value_parsed(current: ValueModel, t: Seq<char>) -> Result<ValueModel, Seq<char>> {
    match current {
        ValueModel::Bool(_) => if t == "true"@ {
            Ok(ValueModel::Bool(true))
        } else if t == "false"@ {
            Ok(ValueModel::Bool(false))
        } else {
            Err(bool_error(t))
        },
        ValueModel::Integer(_) => match integer_of(t) {
            Some(i) => Ok(ValueModel::Integer(i)),
            None => Err(integer_error(t)),
        },
        ValueModel::Text(_) => Ok(ValueModel::Text(t)),
    }
}

impl Value {
    /// Sets the value from the text `s`, read as a value of its kind; on an
    /// error the value stays as it was.
    pub fn parse_in_place(&mut self, s: &str) -> (r: Result<(), Error>)
        ensures
            match value_parsed(old(self)@, s@) {
                Ok(v) => r is Ok && final(self)@ == v,
                Err(m) => (r matches Err(Error::Parse(msg)) && msg@ == m) && *final(self) == *old(self),
            },
    {
        match self {
            Value::Bool(_) => {
                if str_eq(s, "true") {
                    *self = Value::Bool(true);
                    Ok(())
                } else if str_eq(s, "false") {
                    *self = Value::Bool(false);
                    Ok(())
                } else {
                    let m = joined(joined("Expected 'true' or 'false', found: '", s).as_str(), "'");
                    Err(Error::parse(m))
                }
            },
            Value::Integer(_) => match parse_integer(s) {
                Some(i) => {
                    *self = Value::Integer(i);
                    Ok(())
                },
                None => {
                    let m = joined(joined("Expected valid integer value, found: '", s).as_str(), "'");
                    Err(Error::parse(m))
                },
            },
            Value::String(_) => {
                *self = Value::String(s.to_owned());
                Ok(())
            },
        }
    }
}

/// The values of the configurations.
pub open spec fn values_of(configs: Seq<(String, usize, Value)>) -> Seq<ValueModel> {
    configs.map_values(|c: (String, usize, Value)| c.2@)
}

/// The values after the environment's assignments `asg` (each the index of
/// a configuration and a text) were parsed into `values` in order; an
/// assignment that does not parse leaves the value as it was.
pub open spec fn applied(values: Seq<ValueModel>, asg: Seq<(usize, String)>) -> Seq<ValueModel>
    decreases asg.len(),
{
    if asg.len() == 0 {
        values
    } else {
        let prev = applied(values, asg.drop_last());
        let k = asg.last().0 as int;
        if k < prev.len() {
            match value_parsed(prev[k], asg.last().1@) {
                Ok(v) => prev.update(k, v),
                Err(_) => prev,
            }
        } else {
            prev
        }
    }
}

/// The messages of the assignments that do not parse, in order: the
/// configuration's variable, `": "` and why.
pub open spec fn failures(names: Seq<Seq<char>>, values: Seq<ValueModel>, asg: Seq<(usize, String)>) -> Seq<Seq<char>>
    decreases asg.len(),
{
    if asg.len() == 0 {
        Seq::empty()
    } else {
        let prev_values = applied(values, asg.drop_last());
        let prev = failures(names, values, asg.drop_last());
        let k = asg.last().0 as int;
        if k < prev_values.len() {
            match value_parsed(prev_values[k], asg.last().1@) {
                Ok(_) => prev,
                Err(m) => prev.push(names[k] + ": "@ + m),
            }
        } else {
            prev
        }
    }
}

/// Parses the values that the environment sets into the configurations, in
/// order: `Err` with the message of each assignment that does not parse,
/// when any does not; an assignment to no configuration is skipped.
pub fn apply_assignments(configs: &mut Vec<(String, usize, Value)>, assignments: &Vec<(usize, String)>) -> (r: Result<(), Vec<String>>)
    ensures
        final(configs)@.len() == old(configs)@.len(),
        forall|i: int| 0 <= i < old(configs)@.len() ==>
            (#[trigger] final(configs)@[i]).0@ == old(configs)@[i].0@ && final(configs)@[i].1 == old(configs)@[i].1,
        values_of(final(configs)@) == applied(values_of(old(configs)@), assignments@),
        ({
            let f = failures(config_keys(old(configs)@), values_of(old(configs)@), assignments@);
            match r {
                Ok(_) => f.len() == 0,
                Err(failed) => f.len() > 0 && failed@.map_values(|m: String| m@) == f,
            }
        }),
{
    let ghost names = config_keys(configs@);
    let ghost values = values_of(configs@);
    let mut failed: Vec<String> = Vec::new();
    let mut j: usize = 0;
    while j < assignments.len()
        invariant
            j <= assignments@.len(),
            configs@.len() == old(configs)@.len(),
            names == config_keys(old(configs)@),
            values == values_of(old(configs)@),
            forall|i: int| 0 <= i < old(configs)@.len() ==>
                (#[trigger] configs@[i]).0@ == old(configs)@[i].0@ && configs@[i].1 == old(configs)@[i].1,
            values_of(configs@) == applied(values, assignments@.subrange(0, j as int)),
            failed@.map_values(|m: String| m@) == failures(names, values, assignments@.subrange(0, j as int)),
        decreases assignments@.len() - j,
    {
        let ghost asg = assignments@.subrange(0, j + 1);
        assert(asg.drop_last() =~= assignments@.subrange(0, j as int));
        let ghost before = configs@;
        let k = assignments[j].0;
        if k < configs.len() {
            let mut v = configs[k].2.duplicate();
            match v.parse_in_place(assignments[j].1.as_str()) {
                Ok(()) => {
                    let name = configs[k].0.clone();
                    let idx = configs[k].1;
                    configs.set(k, (name, idx, v));
                    assert(values_of(configs@) =~= values_of(before).update(k as int, v@));
                },
                Err(e) => {
                    let Error::Parse(m) = e;
                    let with_colon = joined(configs[k].0.as_str(), ": ");
                    let message = joined(with_colon.as_str(), m.as_str());
                    let ghost fb = failed@;
                    failed.push(message);
                    assert(failed@.map_values(|m: String| m@) =~= fb.map_values(|m: String| m@).push(message@));
                    assert(names[k as int] == before[k as int].0@);
                },
            }
        }
        j = j + 1;
    }
    assert(assignments@.subrange(0, assignments@.len() as int) =~= assignments@);
    if failed.len() == 0 {
        Ok(())
    } else {
        Err(failed)
    }
}

/// A configuration option.
#[derive(Debug, Clone)]
pub struct ConfigOption {
    /// The option's name; its environment variable is the crate's prefix
    /// followed by the name in `SCREAMING_SNAKE_CASE`.
    pub name: String,
    /// The option's description, for its documentation.
    pub description: String,
    /// The option's default value.
    pub default_value: Value,
    /// Whether the option is offered to the user; setting an inactive one
    /// is an error.
    pub active: bool,
}

/// A character with `-` turned into `_` and ASCII letters into lower case.
pub open spec fn snake_char(c: char) -> char {
    if c == '-' { '_' } else if 'A' <= c <= 'Z' { ((c as u32) + 32) as char } else { c }
}

/// A character with `-` turned into `_` and ASCII letters into upper case.
pub open spec fn screaming_char(c: char) -> char {
    if c == '-' { '_' } else if 'a' <= c <= 'z' { ((c as u32) - 32) as char } else { c }
}

/// A name in `snake_case`: every `-` becomes `_`, and ASCII letters are
/// made lower case.
pub fn snake_case(name: &str) -> (r: String)
    ensures
        r@ == name@.map_values(|c: char| snake_char(c)),
{
    let n = name.unicode_len();
    let mut out = String::new();
    let mut i: usize = 0;
    while i < n
        invariant
            i <= n,
            n == name@.len(),
            out@ == name@.subrange(0, i as int).map_values(|c: char| snake_char(c)),
        decreases n - i,
    {
        let c = name.get_char(i);
        let d = if c == '-' {
            '_'
        } else if 'A' <= c && c <= 'Z' {
            ((c as u8) + 32) as char
        } else {
            c
        };
        push_char(&mut out, d);
        i = i + 1;
        assert(out@ =~= name@.subrange(0, i as int).map_values(|c: char| snake_char(c)));
    }
    assert(name@.subrange(0, n as int) =~= name@);
    out
}

/// A name in `SCREAMING_SNAKE_CASE`: every `-` becomes `_`, and ASCII
/// letters are made upper case.
pub fn screaming_snake_case(name: &str) -> (r: String)
    ensures
        r@ == name@.map_values(|c: char| screaming_char(c)),
{
    let n = name.unicode_len();
    let mut out = String::new();
    let mut i: usize = 0;
    while i < n
        invariant
            i <= n,
            n == name@.len(),
            out@ == name@.subrange(0, i as int).map_values(|c: char| screaming_char(c)),
        decreases n - i,
    {
        let c = name.get_char(i);
        let d = if c == '-' {
            '_'
        } else if 'a' <= c && c <= 'z' {
            ((c as u8) - 32) as char
        } else {
            c
        };
        push_char(&mut out, d);
        i = i + 1;
        assert(out@ =~= name@.subrange(0, i as int).map_values(|c: char| screaming_char(c)));
    }
    assert(name@.subrange(0, n as int) =~= name@);
    out
}

/// `a` followed by `b`.
pub fn joined(a: &str, b: &str) -> (r: String)
    ensures
        r@ == a@ + b@,
{
    let mut out = String::new();
    let na = a.unicode_len();
    let mut i: usize = 0;
    while i < na
        invariant
            i <= na,
            na == a@.len(),
            out@ == a@.subrange(0, i as int),
        decreases na - i,
    {
        push_char(&mut out, a.get_char(i));
        i = i + 1;
        assert(out@ =~= a@.subrange(0, i as int));
    }
    let nb = b.unicode_len();
    let mut j: usize = 0;
    while j < nb
        invariant
            j <= nb,
            nb == b@.len(),
            na == a@.len(),
            out@ == a@ + b@.subrange(0, j as int),
        decreases nb - j,
    {
        push_char(&mut out, b.get_char(j));
        j = j + 1;
        assert(out@ =~= a@ + b@.subrange(0, j as int));
    }
    assert(b@.subrange(0, nb as int) =~= b@);
    out
}

/// Whether `s` starts with `prefix`.
pub fn starts_with(s: &str, prefix: &str) -> (r: bool)
    ensures
        r == (prefix@.len() <= s@.len() && s@.subrange(0, prefix@.len() as int) == prefix@),
{
    let n = prefix.unicode_len();
    if n > s.unicode_len() {
        return false;
    }
    let mut i: usize = 0;
    while i < n
        invariant
            i <= n,
            n == prefix@.len(),
            n <= s@.len(),
            s@.subrange(0, i as int) == prefix@.subrange(0, i as int),
        decreases n - i,
    {
        if s.get_char(i) != prefix.get_char(i) {
            assert(s@.subrange(0, n as int)[i as int] != prefix@[i as int]);
            return false;
        }
        i = i + 1;
        assert(s@.subrange(0, i as int) =~= prefix@.subrange(0, i as int));
    }
    assert(prefix@.subrange(0, n as int) =~= prefix@);
    true
}

impl ConfigOption {
    /// An active option.
    pub fn new(name: &str, description: &str, default_value: Value) -> (r: Self)
        ensures
            r.name@ == name@,
            r.description@ == description@,
            r.default_value == default_value,
            r.active,
    {
        ConfigOption {
            name: name.to_owned(),
            description: description.to_owned(),
            default_value,
            active: true,
        }
    }

    /// The option, made active or inactive.
    pub fn active(self, active: bool) -> (r: Self)
        ensures
            r.name == self.name,
            r.description == self.description,
            r.default_value == self.default_value,
            r.active == active,
    {
        let mut this = self;
        this.active = active;
        this
    }

    /// The option's environment variable under `prefix`.
    pub fn env_var(&self, prefix: &str) -> (r: String)
        ensures
            r@ == prefix@ + self.name@.map_values(|c: char| screaming_char(c)),
    {
        let s = screaming_snake_case(self.name.as_str());
        joined(prefix, s.as_str())
    }

    /// The option's name as a `cfg` name.
    pub fn cfg_name(&self) -> (r: String)
        ensures
            r@ == self.name@.map_values(|c: char| snake_char(c)),
    {
        snake_case(self.name.as_str())
    }
}

/// The environment variable of option `o` under `prefix`.
pub open spec fn env_var_of(prefix: Seq<char>, o: ConfigOption) -> Seq<char> {
    prefix + o.name@.map_values(|c: char| screaming_char(c))
}

/// The configuration of each option: its environment variable, its index
/// among the options, and its default value.
pub fn create_config(prefix: &str, config: &Vec<ConfigOption>) -> (r: Vec<(String, usize, Value)>)
    ensures
        r@.len() == config@.len(),
        forall|i: int| 0 <= i < config@.len() ==> {
            &&& (#[trigger] r@[i]).0@ == env_var_of(prefix@, config@[i])
            &&& r@[i].1 == i
            &&& r@[i].2 == config@[i].default_value
        },
{
    let mut configs: Vec<(String, usize, Value)> = Vec::new();
    let mut i: usize = 0;
    while i < config.len()
        invariant
            i <= config@.len(),
            configs@.len() == i,
            forall|k: int| 0 <= k < i ==> {
                &&& (#[trigger] configs@[k]).0@ == env_var_of(prefix@, config@[k])
                &&& configs@[k].1 == k
                &&& configs@[k].2 == config@[k].default_value
            },
        decreases config@.len() - i,
    {
        let option = &config[i];
        let var = option.env_var(prefix);
        let value = option.default_value.duplicate();
        configs.push((var, i, value));
        i = i + 1;
    }
    configs
}

/// Whether `keys[k]` is the first key equal to `var`.
pub open spec fn is_first_match(keys: Seq<Seq<char>>, var: Seq<char>, k: int) -> bool {
    0 <= k < keys.len() && keys[k] == var && forall|j: int| 0 <= j < k ==> keys[j] != var
}

/// The environment variables of the configurations.
pub open spec fn config_keys(configs: Seq<(String, usize, Value)>) -> Seq<Seq<char>> {
    configs.map_values(|c: (String, usize, Value)| c.0@)
}

/// What an environment variable does: `None` when it is not under the
/// prefix, `Some(Some(k))` when it sets the active option of configuration
/// `k`, and `Some(None)` when it names no configuration or an inactive
/// one.
pub open spec fn var_outcome(
    prefix: Seq<char>, configs: Seq<(String, usize, Value)>, options: Seq<ConfigOption>, var: Seq<char>,
) -> Option<Option<int>> {
    if !(prefix.len() <= var.len() && var.subrange(0, prefix.len() as int) == prefix) {
        None
    } else if exists|k: int| is_first_match(config_keys(configs), var, k) {
        let k = choose|k: int| is_first_match(config_keys(configs), var, k);
        if options[configs[k].1 as int].active { Some(Some(k)) } else { Some(None) }
    } else {
        Some(None)
    }
}

/// The values that the environment sets, in the order of the variables:
/// the configuration's index and the text of the value.
pub open spec fn assignments_of(
    prefix: Seq<char>, configs: Seq<(String, usize, Value)>, options: Seq<ConfigOption>, env: Seq<(String, String)>,
) -> Seq<(int, Seq<char>)>
    decreases env.len(),
{
    if env.len() == 0 {
        Seq::empty()
    } else {
        let prev = assignments_of(prefix, configs, options, env.drop_last());
        match var_outcome(prefix, configs, options, env.last().0@) {
            Some(Some(k)) => prev.push((k, env.last().1@)),
            _ => prev,
        }
    }
}

/// The variables under the prefix that set no active option, in order.
pub open spec fn unknown_of(
    prefix: Seq<char>, configs: Seq<(String, usize, Value)>, options: Seq<ConfigOption>, env: Seq<(String, String)>,
) -> Seq<Seq<char>>
    decreases env.len(),
{
    if env.len() == 0 {
        Seq::empty()
    } else {
        let prev = unknown_of(prefix, configs, options, env.drop_last());
        match var_outcome(prefix, configs, options, env.last().0@) {
            Some(None) => prev.push(env.last().0@),
            _ => prev,
        }
    }
}

/// The first configuration whose variable is `var`.
fn find_config(configs: &Vec<(String, usize, Value)>, var: &String) -> (r: Option<usize>)
    ensures
        match r {
            Some(k) => is_first_match(config_keys(configs@), var@, k as int),
            None => forall|k: int| 0 <= k < configs@.len() ==> config_keys(configs@)[k] != var@,
        },
{
    let mut k: usize = 0;
    while k < configs.len()
        invariant
            k <= configs@.len(),
            forall|j: int| 0 <= j < k ==> config_keys(configs@)[j] != var@,
        decreases configs@.len() - k,
    {
        if configs[k].0 == *var {
            return Some(k);
        }
        k = k + 1;
    }
    None
}

/// Sorts the environment's variables under the prefix: those that set an
/// active option, with their values, and the unknown ones, which name no
/// option or an inactive one.
pub fn capture_from_env(
    prefix: &str,
    configs: &Vec<(String, usize, Value)>,
    options: &Vec<ConfigOption>,
    env: &Vec<(String, String)>,
) -> (r: (Vec<(usize, String)>, Vec<String>))
    requires
        forall|i: int| 0 <= i < configs@.len() ==> (#[trigger] configs@[i]).1 < options@.len(),
    ensures
        r.0@.len() == assignments_of(prefix@, configs@, options@, env@).len(),
        forall|i: int| 0 <= i < r.0@.len() ==> {
            &&& (#[trigger] r.0@[i]).0 == assignments_of(prefix@, configs@, options@, env@)[i].0
            &&& r.0@[i].1@ == assignments_of(prefix@, configs@, options@, env@)[i].1
        },
        r.1@.len() == unknown_of(prefix@, configs@, options@, env@).len(),
        forall|i: int| 0 <= i < r.1@.len() ==> (#[trigger] r.1@[i])@ == unknown_of(prefix@, configs@, options@, env@)[i],
{
    let mut assigned: Vec<(usize, String)> = Vec::new();
    let mut unknown: Vec<String> = Vec::new();
    let mut e: usize = 0;
    while e < env.len()
        invariant
            e <= env@.len(),
            forall|i: int| 0 <= i < configs@.len() ==> (#[trigger] configs@[i]).1 < options@.len(),
            assigned@.len() == assignments_of(prefix@, configs@, options@, env@.subrange(0, e as int)).len(),
            forall|i: int| 0 <= i < assigned@.len() ==> {
                &&& (#[trigger] assigned@[i]).0 == assignments_of(prefix@, configs@, options@, env@.subrange(0, e as int))[i].0
                &&& assigned@[i].1@ == assignments_of(prefix@, configs@, options@, env@.subrange(0, e as int))[i].1
            },
            unknown@.len() == unknown_of(prefix@, configs@, options@, env@.subrange(0, e as int)).len(),
            forall|i: int| 0 <= i < unknown@.len() ==>
                (#[trigger] unknown@[i])@ == unknown_of(prefix@, configs@, options@, env@.subrange(0, e as int))[i],
        decreases env@.len() - e,
    {
        let ghost before = env@.subrange(0, e as int);
        let ghost after = env@.subrange(0, e + 1);
        assert(after.drop_last() =~= before);
        let var = &env[e].0;
        let value = &env[e].1;
        if starts_with(var.as_str(), prefix) {
            match find_config(configs, var) {
                None => {
                    proof {
                        assert(!exists|k: int| is_first_match(config_keys(configs@), var@, k));
                    }
                    unknown.push(var.clone());
                },
                Some(k) => {
                    proof {
                        let w = choose|j: int| is_first_match(config_keys(configs@), var@, j);
                        assert(is_first_match(config_keys(configs@), var@, k as int));
                        if w < k {
                            assert(config_keys(configs@)[w] != var@);
                        }
                        if k < w {
                            assert(config_keys(configs@)[k as int] != var@);
                        }
                        assert(w == k);
                    }
                    let idx = configs[k].1;
                    if options[idx].active {
                        assigned.push((k, value.clone()));
                    } else {
                        unknown.push(var.clone());
                    }
                },
            }
        }
        e = e + 1;
    }
    assert(env@.subrange(0, env@.len() as int) =~= env@);
    (assigned, unknown)
}

/// A line a build script prints for cargo.
#[derive(Debug, Clone)]
pub enum CargoLine {
    /// `cargo:rerun-if-changed=build.rs`.
    RerunIfBuildScriptChanged,
    /// `cargo:rustc-env=<var>=<value>`, with the value of a configuration.
    RustcEnv { var: String, config: usize },
    /// `cargo:rerun-if-env-changed=<var>`.
    RerunIfEnvChanged(String),
    /// `cargo:rustc-check-cfg=cfg(<name>)`.
    CheckCfg(String),
    /// `cargo:rustc-cfg=<name>`.
    Cfg(String),
}

/// A line as its kind (numbered in the order of [`CargoLine`]'s variants),
/// its text, and the configuration whose value it carries (or -1).
pub open spec fn line_view(l: CargoLine) -> (int, Seq<char>, int) {
    match l {
        CargoLine::RerunIfBuildScriptChanged => (0, Seq::empty(), -1),
        CargoLine::RustcEnv { var, config } => (1, var@, config as int),
        CargoLine::RerunIfEnvChanged(var) => (2, var@, -1),
        CargoLine::CheckCfg(name) => (3, name@, -1),
        CargoLine::Cfg(name) => (4, name@, -1),
    }
}

/// The line that has the build script run again when it changes.
pub open spec fn rerun_line() -> (int, Seq<char>, int) {
    (0, Seq::empty(), -1)
}

/// The lines that announce the first `n` configurations, after the line
/// that has the build script run again when it changes.
pub open spec fn emitted(configs: Seq<(String, usize, Value)>, options: Seq<ConfigOption>, n: int) -> Seq<(int, Seq<char>, int)>
    decreases n,
{
    if n <= 0 {
        seq![rerun_line()]
    } else {
        let k = n - 1;
        let var = configs[k].0@;
        let cfg = options[configs[k].1 as int].name@.map_values(|c: char| snake_char(c));
        let lines = emitted(configs, options, k) + seq![(1, var, k), (2, var, -1), (3, cfg, -1)];
        if configs[k].2 matches Value::Bool(true) { lines.push((4, cfg, -1)) } else { lines }
    }
}

/// The lines that a build script prints, in order: that it is to run again
/// when it changes, then for each configuration its value as an
/// environment variable, a rebuild when that changes, its
/// `cfg` name, and the `cfg` itself when its value is `true`.
pub fn emit_configuration(configs: &Vec<(String, usize, Value)>, options: &Vec<ConfigOption>) -> (r: Vec<CargoLine>)
    requires
        forall|i: int| 0 <= i < configs@.len() ==> (#[trigger] configs@[i]).1 < options@.len(),
    ensures
        r@.map_values(|l: CargoLine| line_view(l)) == emitted(configs@, options@, configs@.len() as int),
{
    let mut lines: Vec<CargoLine> = Vec::new();
    lines.push(CargoLine::RerunIfBuildScriptChanged);
    assert(lines@.map_values(|l: CargoLine| line_view(l)) =~= emitted(configs@, options@, 0));
    let mut k: usize = 0;
    while k < configs.len()
        invariant
            k <= configs@.len(),
            forall|i: int| 0 <= i < configs@.len() ==> (#[trigger] configs@[i]).1 < options@.len(),
            lines@.map_values(|l: CargoLine| line_view(l)) == emitted(configs@, options@, k as int),
        decreases configs@.len() - k,
    {
        let ghost before = lines@;
        let cfg_name = options[configs[k].1].cfg_name();
        lines.push(CargoLine::RustcEnv { var: configs[k].0.clone(), config: k });
        lines.push(CargoLine::RerunIfEnvChanged(configs[k].0.clone()));
        lines.push(CargoLine::CheckCfg(cfg_name.clone()));
        if let Value::Bool(true) = configs[k].2 {
            lines.push(CargoLine::Cfg(cfg_name));
        }
        k = k + 1;
        assert(lines@.map_values(|l: CargoLine| line_view(l)) =~= emitted(configs@, options@, k as int));
    }
    lines
}

/// What the environment's variables do depends on the configurations'
/// variables and options alone, not on their values.
proof fn lemma_outcomes_ignore_values(
    prefix: Seq<char>, c1: Seq<(String, usize, Value)>, c2: Seq<(String, usize, Value)>, options: Seq<ConfigOption>,
    env: Seq<(String, String)>,
)
    requires
        c1.len() == c2.len(),
        config_keys(c1) == config_keys(c2),
        forall|i: int| 0 <= i < c1.len() ==> (#[trigger] c1[i]).1 == c2[i].1,
    ensures
        assignments_of(prefix, c1, options, env) == assignments_of(prefix, c2, options, env),
        unknown_of(prefix, c1, options, env) == unknown_of(prefix, c2, options, env),
    decreases env.len(),
{
    if env.len() > 0 {
        lemma_outcomes_ignore_values(prefix, c1, c2, options, env.drop_last());
        let var = env.last().0@;
        if exists|k: int| is_first_match(config_keys(c1), var, k) {
            let k = choose|k: int| is_first_match(config_keys(c1), var, k);
            assert(c1[k].1 == c2[k].1);
        }
        assert(var_outcome(prefix, c1, options, var) == var_outcome(prefix, c2, options, var));
    }
}

/// Why a configuration is refused.
#[derive(Debug, Clone)]
pub enum ConfigProblem {
    /// Values that do not parse, with their messages.
    Invalid(Vec<String>),
    /// Variables under the crate's prefix that set no active option.
    Unknown(Vec<String>),
}

/// What a crate's configuration comes to: the configurations with the
/// values that the environment sets, the assignments and unknown variables
/// that the environment holds, why the configuration is refused if it is,
/// and the lines for cargo.
pub struct GeneratedConfig {
    pub configs: Vec<(String, usize, Value)>,
    pub assignments: Vec<(usize, String)>,
    pub unknown: Vec<String>,
    pub problem: Option<ConfigProblem>,
    pub lines: Vec<CargoLine>,
}

/// The prefix of a crate's configuration variables.
pub open spec fn config_prefix(crate_name: Seq<char>) -> Seq<char> {
    crate_name.map_values(|c: char| screaming_char(c)) + "_CONFIG_"@
}

/// The default values of the options.
pub open spec fn defaults_of(config: Seq<ConfigOption>) -> Seq<ValueModel> {
    config.map_values(|o: ConfigOption| o.default_value@)
}

/// Makes the configurations of `config` for the crate `crate_name`, under
/// the prefix `<CRATE_NAME>_CONFIG_`, sorts the environment `env`'s
/// variables under that prefix, and parses the values they set. The
/// configuration is refused for the values that do not parse, else for the
/// unknown variables; the lines for cargo are that the build script is to
/// run again when it changes, followed, unless the configuration is
/// refused, by the lines that announce the configurations.
pub fn generate_config_internal(crate_name: &str, config: &Vec<ConfigOption>, env: &Vec<(String, String)>) -> (r: GeneratedConfig)
    ensures
        r.configs@.len() == config@.len(),
        forall|i: int| 0 <= i < config@.len() ==> {
            &&& (#[trigger] r.configs@[i]).0@ == env_var_of(config_prefix(crate_name@), config@[i])
            &&& r.configs@[i].1 == i
        },
        r.assignments@.len() == assignments_of(config_prefix(crate_name@), r.configs@, config@, env@).len(),
        forall|i: int| 0 <= i < r.assignments@.len() ==> {
            &&& (#[trigger] r.assignments@[i]).0 == assignments_of(config_prefix(crate_name@), r.configs@, config@, env@)[i].0
            &&& r.assignments@[i].1@ == assignments_of(config_prefix(crate_name@), r.configs@, config@, env@)[i].1
        },
        r.unknown@.len() == unknown_of(config_prefix(crate_name@), r.configs@, config@, env@).len(),
        forall|i: int| 0 <= i < r.unknown@.len() ==>
            (#[trigger] r.unknown@[i])@ == unknown_of(config_prefix(crate_name@), r.configs@, config@, env@)[i],
        values_of(r.configs@) == applied(defaults_of(config@), r.assignments@),
        ({
            let f = failures(config_keys(r.configs@), defaults_of(config@), r.assignments@);
            if f.len() > 0 {
                r.problem matches Some(ConfigProblem::Invalid(m)) && m@.map_values(|x: String| x@) == f
            } else if r.unknown@.len() > 0 {
                r.problem matches Some(ConfigProblem::Unknown(u)) && u@ == r.unknown@
            } else {
                r.problem is None
            }
        }),
        r.problem is None ==> r.lines@.map_values(|l: CargoLine| line_view(l))
            == emitted(r.configs@, config@, config@.len() as int),
        r.problem is Some ==> r.lines@.map_values(|l: CargoLine| line_view(l)) == seq![rerun_line()],
{
    let name = screaming_snake_case(crate_name);
    let prefix = joined(name.as_str(), "_CONFIG_");
    let mut configs = create_config(prefix.as_str(), config);
    let (assignments, unknown) = capture_from_env(prefix.as_str(), &configs, config, env);
    let ghost c0 = configs@;
    assert(values_of(c0) =~= defaults_of(config@));
    assert(config_keys(c0) =~= config_keys(configs@));
    let applied_ok = apply_assignments(&mut configs, &assignments);
    assert(config_keys(configs@) =~= config_keys(c0));
    assert forall|i: int| 0 <= i < configs@.len() implies (#[trigger] configs@[i]).1 < config@.len() by {
        assert(configs@[i].1 == c0[i].1);
    }
    proof {
        assert forall|i: int| 0 <= i < c0.len() implies (#[trigger] c0[i]).1 == configs@[i].1 by {}
        lemma_outcomes_ignore_values(config_prefix(crate_name@), c0, configs@, config@, env@);
        assert(prefix@ == config_prefix(crate_name@));
    }
    let problem = match applied_ok {
        Err(failed) => Some(ConfigProblem::Invalid(failed)),
        Ok(()) => if unknown.len() > 0 {
            Some(ConfigProblem::Unknown(unknown.clone()))
        } else {
            None
        },
    };
    let lines = if problem.is_none() {
        emit_configuration(&configs, config)
    } else {
        let mut only: Vec<CargoLine> = Vec::new();
        only.push(CargoLine::RerunIfBuildScriptChanged);
        assert(only@.map_values(|l: CargoLine| line_view(l)) =~= seq![rerun_line()]);
        only
    };
    GeneratedConfig { configs, assignments, unknown, problem, lines }
}

/// Turning a name into `SCREAMING_SNAKE_CASE` or `snake_case` twice is
/// turning it once.
pub proof fn lemma_case_idempotent(name: Seq<char>)
    ensures
        name.map_values(|c: char| screaming_char(c)).map_values(|c: char| screaming_char(c))
            == name.map_values(|c: char| screaming_char(c)),
        name.map_values(|c: char| snake_char(c)).map_values(|c: char| snake_char(c))
            == name.map_values(|c: char| snake_char(c)),
{
    assert(name.map_values(|c: char| screaming_char(c)).map_values(|c: char| screaming_char(c))
        =~= name.map_values(|c: char| screaming_char(c)));
    assert(name.map_values(|c: char| snake_char(c)).map_values(|c: char| snake_char(c))
        =~= name.map_values(|c: char| snake_char(c)));
}

} // verus!
