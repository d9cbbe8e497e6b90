use vstd::prelude::*;
use vstd::string::*;

verus! {

/// Family of trend functions of a Gaussian process.
#[derive(Clone, Copy, Debug, PartialEq, Eq, Structural)]
pub enum MeanModelKind {
    Constant,
    Linear,
    Quadratic,
}

/// Family of correlation kernels of a Gaussian process.
#[derive(Clone, Copy, Debug, PartialEq, Eq, Structural)]
pub enum CorrelationKind {
    SquaredExponential,
    AbsoluteExponential,
    Matern32,
    Matern52,
}

/// One of the twelve (mean, correlation) pairs a surrogate can be built on.
#[derive(Clone, Copy, Debug, PartialEq, Eq, Structural)]
pub struct SurrogateVariant {
    pub mean: MeanModelKind,
    pub corr: CorrelationKind,
}

pub open spec fn mean_name(m: MeanModelKind) -> Seq<char> {
    match m {
        MeanModelKind::Constant => "Constant"@,
        MeanModelKind::Linear => "Linear"@,
        MeanModelKind::Quadratic => "Quadratic"@,
    }
}

pub open spec fn corr_name(c: CorrelationKind) -> Seq<char> {
    match c {
        CorrelationKind::SquaredExponential => "SquaredExponential"@,
        CorrelationKind::AbsoluteExponential => "AbsoluteExponential"@,
        CorrelationKind::Matern32 => "Matern32"@,
        CorrelationKind::Matern52 => "Matern52"@,
    }
}

/// The dispatch key of a variant: `"<mean>_<corr>"`.
pub open spec fn key_of(v: SurrogateVariant) -> Seq<char> {
    mean_name(v.mean) + "_"@ + corr_name(v.corr)
}

pub open spec fn digit_char(d: nat) -> char {
    if d == 0 { '0' }
    else if d == 1 { '1' }
    else if d == 2 { '2' }
    else if d == 3 { '3' }
    else if d == 4 { '4' }
    else if d == 5 { '5' }
    else if d == 6 { '6' }
    else if d == 7 { '7' }
    else if d == 8 { '8' }
    else { '9' }
}

/// Decimal digits of `n`, most significant first, without leading zeros.
pub open spec fn decimal(n: nat) -> Seq<char>
    decreases n,
{
    if n < 10 {
        seq![digit_char(n)]
    } else {
        decimal(n / 10) + seq![digit_char(n % 10)]
    }
}

/// Suffix of the label of a surrogate reduced by partial least squares.
pub open spec fn pls_suffix(kpls_dim: Option<usize>) -> Seq<char> {
    match kpls_dim {
        None => Seq::empty(),
        Some(d) => "_PLS("@ + decimal(d as nat) + ")"@,
    }
}

/// The human-readable label of a trained surrogate.
pub open spec fn label_of(v: SurrogateVariant, kpls_dim: Option<usize>) -> Seq<char> {
    key_of(v) + pls_suffix(kpls_dim)
}

/// Position of a variant in the registry table.
pub open spec fn variant_index(v: SurrogateVariant) -> int {
    let m: int = match v.mean {
        MeanModelKind::Constant => 0,
        MeanModelKind::Linear => 1,
        MeanModelKind::Quadratic => 2,
    };
    let c: int = match v.corr {
        CorrelationKind::SquaredExponential => 0,
        CorrelationKind::AbsoluteExponential => 1,
        CorrelationKind::Matern32 => 2,
        CorrelationKind::Matern52 => 3,
    };
    4 * m + c
}

impl MeanModelKind {
    pub fn name(&self) -> (r: &'static str)
        ensures
            r@ == mean_name(*self),
    {
        match self {
            MeanModelKind::Constant => "Constant",
            MeanModelKind::Linear => "Linear",
            MeanModelKind::Quadratic => "Quadratic",
        }
    }
}

impl CorrelationKind {
    pub fn name(&self) -> (r: &'static str)
        ensures
            r@ == corr_name(*self),
    {
        match self {
            CorrelationKind::SquaredExponential => "SquaredExponential",
            CorrelationKind::AbsoluteExponential => "AbsoluteExponential",
            CorrelationKind::Matern32 => "Matern32",
            CorrelationKind::Matern52 => "Matern52",
        }
    }
}

fn digit_str(d: usize) -> (r: &'static str)
    requires
        d < 10,
    ensures
        r@ == seq![digit_char(d as nat)],
{
    proof {
        reveal_strlit("0");
        reveal_strlit("1");
        reveal_strlit("2");
        reveal_strlit("3");
        reveal_strlit("4");
        reveal_strlit("5");
        reveal_strlit("6");
        reveal_strlit("7");
        reveal_strlit("8");
        reveal_strlit("9");
    }
    let r = if d == 0 { "0" }
    else if d == 1 { "1" }
    else if d == 2 { "2" }
    else if d == 3 { "3" }
    else if d == 4 { "4" }
    else if d == 5 { "5" }
    else if d == 6 { "6" }
    else if d == 7 { "7" }
    else if d == 8 { "8" }
    else { "9" };
    assert(r@ =~= seq![digit_char(d as nat)]);
    r
}

/// Appends the decimal digits of `n` to `s`.
pub fn push_decimal(s: &mut String, n: usize)
    ensures
        final(s)@ == old(s)@ + decimal(n as nat),
    decreases n,
{
    let ghost s0 = s@;
    if n >= 10 {
        push_decimal(s, n / 10);
    }
    s.append(digit_str(n % 10));
    assert(s@ =~= s0 + decimal(n as nat));
}

/// Character-wise equality of two strings.
pub fn str_eq(a: &str, b: &str) -> (r: bool)
    ensures
        r == (a@ == b@),
{
    let n = a.unicode_len();
    if n != b.unicode_len() {
        return false;
    }
    let mut i: usize = 0;
    while i < n
        invariant
            n == a@.len(),
            n == b@.len(),
            i <= n,
            forall|j: int| 0 <= j < i ==> a@[j] == b@[j],
        decreases n - i,
    {
        if a.get_char(i) != b.get_char(i) {
            return false;
        }
        i += 1;
    }
    assert(a@ =~= b@);
    true
}


impl SurrogateVariant {
    /// The dispatch key `"<mean>_<corr>"` under which the variant is persisted.
    pub fn key(&self) -> (r: String)
        ensures
            r@ == key_of(*self),
    {
        let mut r = String::from_str(self.mean.name());
        r.append("_");
        r.append(self.corr.name());
        r
    }

    /// The label `"<mean>_<corr>"`, followed by `"_PLS(<dim>)"` when a
    /// partial-least-squares dimension is active.
    pub fn label(&self, kpls_dim: Option<usize>) -> (r: String)
        ensures
            r@ == label_of(*self, kpls_dim),
    {
        let mut r = self.key();
        match kpls_dim {
            None => {
                assert(r@ =~= label_of(*self, kpls_dim));
            },
            Some(d) => {
                r.append("_PLS(");
                push_decimal(&mut r, d);
                r.append(")");
                assert(r@ =~= label_of(*self, kpls_dim));
            },
        }
        r
    }
}

/// The registry table: every variant, at the position `variant_index` gives it.
pub fn all_variants() -> (r: Vec<SurrogateVariant>)
    ensures
        r@.len() == 12,
        forall|v: SurrogateVariant| 0 <= #[trigger] variant_index(v) < 12 && r@[variant_index(v)] == v,
{
    let c = MeanModelKind::Constant;
    let l = MeanModelKind::Linear;
    let q = MeanModelKind::Quadratic;
    let se = CorrelationKind::SquaredExponential;
    let ae = CorrelationKind::AbsoluteExponential;
    let m3 = CorrelationKind::Matern32;
    let m5 = CorrelationKind::Matern52;
    vec![
        SurrogateVariant { mean: c, corr: se },
        SurrogateVariant { mean: c, corr: ae },
        SurrogateVariant { mean: c, corr: m3 },
        SurrogateVariant { mean: c, corr: m5 },
        SurrogateVariant { mean: l, corr: se },
        SurrogateVariant { mean: l, corr: ae },
        SurrogateVariant { mean: l, corr: m3 },
        SurrogateVariant { mean: l, corr: m5 },
        SurrogateVariant { mean: q, corr: se },
        SurrogateVariant { mean: q, corr: ae },
        SurrogateVariant { mean: q, corr: m3 },
        SurrogateVariant { mean: q, corr: m5 },
    ]
}

/// Distinct variants have distinct dispatch keys.
pub proof fn lemma_key_injective(v1: SurrogateVariant, v2: SurrogateVariant)
    requires
        key_of(v1) == key_of(v2),
    ensures
        v1 == v2,
{
    reveal_strlit("Constant");
    reveal_strlit("Linear");
    reveal_strlit("Quadratic");
    reveal_strlit("_");
    reveal_strlit("SquaredExponential");
    reveal_strlit("AbsoluteExponential");
    reveal_strlit("Matern32");
    reveal_strlit("Matern52");
    let k = key_of(v1);
    assert(k[0] == mean_name(v1.mean)[0]);
    assert(k[0] == mean_name(v2.mean)[0]);
    assert(v1.mean == v2.mean);
    let p: int = mean_name(v1.mean).len() as int + 1;
    assert(k.subrange(p, k.len() as int) =~= corr_name(v1.corr));
    assert(k.subrange(p, k.len() as int) =~= corr_name(v2.corr));
    let c1 = corr_name(v1.corr);
    let c2 = corr_name(v2.corr);
    assert(c1[0] == c2[0]);
    assert(c1[6] == c2[6]);
}


/// The variant persisted under a key, if any.
pub open spec fn variant_of_key(k: Seq<char>) -> Option<SurrogateVariant> {
    if exists|v: SurrogateVariant| key_of(v) == k {
        Some(choose|v: SurrogateVariant| key_of(v) == k)
    } else {
        None
    }
}

/// The key that `load` looks up for a persisted `mean` and `corr` pair.
pub open spec fn requested_key(mean: Seq<char>, corr: Seq<char>) -> Seq<char> {
    mean + "_"@ + corr
}

/// Reading a variant back from its own key gives that variant.
pub proof fn lemma_key_round_trip(v: SurrogateVariant)
    ensures
        variant_of_key(key_of(v)) == Some(v),
{
    let w = choose|w: SurrogateVariant| key_of(w) == key_of(v);
    lemma_key_injective(w, v);
}

/// Looks a dispatch key up in the registry table.
pub fn variant_from_key(key: &str) -> (r: Option<SurrogateVariant>)
    ensures
        r == variant_of_key(key@),
{
    let table = all_variants();
    let mut i: usize = 0;
    while i < table.len()
        invariant
            table@.len() == 12,
            forall|v: SurrogateVariant| 0 <= #[trigger] variant_index(v) < 12 && table@[variant_index(v)] == v,
            i <= 12,
            forall|j: int| 0 <= j < i ==> key_of(#[trigger] table@[j]) != key@,
        decreases 12 - i,
    {
        let v = table[i];
        let k = v.key();
        if str_eq(k.as_str(), key) {
            proof {
                lemma_key_round_trip(v);
            }
            return Some(v);
        }
        i += 1;
    }
    proof {
        assert forall|v: SurrogateVariant| key_of(v) != key@ by {
            assert(table@[variant_index(v)] == v);
        }
    }
    None
}

/// Errors of the surrogate layer.
#[derive(Clone, Debug)]
pub enum SurrogateError {
    /// A persisted `mean`/`corr` pair names no known variant; holds the key looked up.
    UnknownVariant(String),
    /// A persisted surrogate is not a JSON document.
    MalformedDocument,
    /// A persisted surrogate lacks a text field of this name.
    MissingField(String),
    /// Training inputs and outputs do not have the same number of rows.
    RowCountMismatch { x_rows: usize, y_rows: usize },
    /// Fewer than two training samples were given.
    TooFewSamples(usize),
    /// A prediction input does not have the width of the training inputs.
    DimensionMismatch { expected: usize, found: usize },
}

/// Resolves the `mean` and `corr` fields of a persisted surrogate to its variant.
pub fn resolve_variant(mean: &str, corr: &str) -> (r: Result<SurrogateVariant, SurrogateError>)
    ensures
        variant_of_key(requested_key(mean@, corr@)) matches Some(v) ==> r == Ok::<SurrogateVariant, SurrogateError>(v),
        variant_of_key(requested_key(mean@, corr@)) is None ==> (r matches Err(SurrogateError::UnknownVariant(k)) && k@ == requested_key(mean@, corr@)),
{
    let mut key = String::from_str(mean);
    key.append("_");
    key.append(corr);
    match variant_from_key(key.as_str()) {
        Some(v) => Ok(v),
        None => Err(SurrogateError::UnknownVariant(key)),
    }
}

/// Checks the shapes of a training set: as many outputs as inputs, and at least two.
pub fn check_training_shapes(x_rows: usize, y_rows: usize) -> (r: Result<(), SurrogateError>)
    ensures
        r is Ok <==> (x_rows == y_rows && x_rows >= 2),
        x_rows != y_rows ==> (r matches Err(SurrogateError::RowCountMismatch { x_rows: a, y_rows: b }) && a == x_rows && b == y_rows),
        x_rows == y_rows && x_rows < 2 ==> (r matches Err(SurrogateError::TooFewSamples(n)) && n == x_rows),
{
    if x_rows != y_rows {
        Err(SurrogateError::RowCountMismatch { x_rows, y_rows })
    } else if x_rows < 2 {
        Err(SurrogateError::TooFewSamples(x_rows))
    } else {
        Ok(())
    }
}

/// Checks that prediction inputs have as many columns as the training inputs.
pub fn check_input_dim(expected: usize, found: usize) -> (r: Result<(), SurrogateError>)
    ensures
        r is Ok <==> expected == found,
        expected != found ==> (r matches Err(SurrogateError::DimensionMismatch { expected: e, found: f }) && e == expected && f == found),
{
    if expected != found {
        Err(SurrogateError::DimensionMismatch { expected, found })
    } else {
        Ok(())
    }
}


pub open spec fn error_message(e: SurrogateError) -> Seq<char> {
    match e {
        SurrogateError::UnknownVariant(k) => "Bad mean or kernel values: "@ + k@,
        SurrogateError::MalformedDocument => "Persisted surrogate is not valid JSON"@,
        SurrogateError::MissingField(f) => "Persisted surrogate has no text field "@ + f@,
        SurrogateError::RowCountMismatch { x_rows, y_rows } =>
            "Training inputs have "@ + decimal(x_rows as nat) + " rows but outputs have "@ + decimal(y_rows as nat),
        SurrogateError::TooFewSamples(n) =>
            "At least 2 training samples are needed, got "@ + decimal(n as nat),
        SurrogateError::DimensionMismatch { expected, found } =>
            "Input dimension "@ + decimal(found as nat) + " does not match training dimension "@ + decimal(expected as nat),
    }
}

impl SurrogateError {
    /// A descriptive message; for an unknown variant it names the key.
    pub fn message(&self) -> (r: String)
        ensures
            r@ == error_message(*self),
    {
        match self {
            SurrogateError::UnknownVariant(k) => {
                let mut r = String::from_str("Bad mean or kernel values: ");
                r.append(k.as_str());
                r
            },
            SurrogateError::MalformedDocument => {
                String::from_str("Persisted surrogate is not valid JSON")
            },
            SurrogateError::MissingField(f) => {
                let mut r = String::from_str("Persisted surrogate has no text field ");
                r.append(f.as_str());
                r
            },
            SurrogateError::RowCountMismatch { x_rows, y_rows } => {
                let mut r = String::from_str("Training inputs have ");
                push_decimal(&mut r, *x_rows);
                r.append(" rows but outputs have ");
                push_decimal(&mut r, *y_rows);
                r
            },
            SurrogateError::TooFewSamples(n) => {
                let mut r = String::from_str("At least 2 training samples are needed, got ");
                push_decimal(&mut r, *n);
                r
            },
            SurrogateError::DimensionMismatch { expected, found } => {
                let mut r = String::from_str("Input dimension ");
                push_decimal(&mut r, *found);
                r.append(" does not match training dimension ");
                push_decimal(&mut r, *expected);
                r
            },
        }
    }
}

#[verifier::external_type_specification]
#[verifier::external_body]
pub struct ExJsonError(serde_json::Error);

/// Whether `serde_json` accepts a text as a JSON document.
pub uninterp spec fn json_accepts(text: Seq<char>) -> bool;

/// The text held under `key` by the JSON object a text parses to: `None` when
/// the document is not an object, lacks the key, or holds something other
/// than a string there.
pub uninterp spec fn json_str_member(text: Seq<char>, key: Seq<char>) -> Option<Seq<char>>;

/// Relies on `serde_json::from_str` into a `serde_json::Value`, which fails
/// exactly on texts that are not JSON, then on `Value::get` and
/// `Value::as_str` to read the string member under `key`.
#[verifier::external_body]
fn json_str_field(text: &str, key: &str) -> (r: Result<Option<String>, serde_json::Error>)
    ensures
        r is Ok <==> json_accepts(text@),
        match r {
            Ok(Some(t)) => json_str_member(text@, key@) == Some(t@),
            Ok(None) => json_str_member(text@, key@) is None,
            Err(_) => true,
        },
{
    serde_json::from_str::<serde_json::Value>(text).map(
        |v| v.get(key).and_then(|m| m.as_str()).map(String::from),
    )
}

/// The outcome of reading the variant of a persisted surrogate document.
pub open spec fn load_outcome(text: Seq<char>, r: Result<SurrogateVariant, SurrogateError>) -> bool {
    if !json_accepts(text) {
        r matches Err(SurrogateError::MalformedDocument)
    } else {
        match (json_str_member(text, "mean"@), json_str_member(text, "corr"@)) {
            (None, _) => r matches Err(SurrogateError::MissingField(f)) && f@ == "mean"@,
            (Some(_), None) => r matches Err(SurrogateError::MissingField(f)) && f@ == "corr"@,
            (Some(m), Some(c)) => match variant_of_key(requested_key(m, c)) {
                Some(v) => r == Ok::<SurrogateVariant, SurrogateError>(v),
                None => r matches Err(SurrogateError::UnknownVariant(k)) && k@ == requested_key(m, c),
            },
        }
    }
}

/// Reads which variant a persisted surrogate document holds, from its `mean`
/// and `corr` text fields. A text that is not JSON is refused as malformed, a
/// missing or non-text field is named, and otherwise the variant returned is
/// the registry's entry for the key `"<mean>_<corr>"`; an unknown key is
/// refused with an error that names it.
pub fn load_variant(text: &str) -> (r: Result<SurrogateVariant, SurrogateError>)
    ensures
        load_outcome(text@, r),
{
    let mean = match json_str_field(text, "mean") {
        Err(_) => return Err(SurrogateError::MalformedDocument),
        Ok(None) => return Err(SurrogateError::MissingField(String::from_str("mean"))),
        Ok(Some(m)) => m,
    };
    let corr = match json_str_field(text, "corr") {
        Err(_) => return Err(SurrogateError::MalformedDocument),
        Ok(None) => return Err(SurrogateError::MissingField(String::from_str("corr"))),
        Ok(Some(c)) => c,
    };
    resolve_variant(mean.as_str(), corr.as_str())
}

} // verus!
