//! Entities and the comparison engine: how a guessed entity stands against the
//! hidden target on each of the five tracked attributes.
use vstd::prelude::*;
use vstd::string::StringExecFns;

verus! {

/// One type of an entity ("Grass", "Poison", ...).
#[derive(Debug, PartialEq, Clone)]
pub struct Type(pub String);

/// The dominant colour of an entity.
#[derive(Debug, PartialEq, Clone)]
pub struct Color(pub String);

/// Weight in hectograms (tenths of a kilogram), the unit of the game data.
#[derive(Debug, Clone, Copy, PartialEq, Eq, Structural)]
pub struct Weight(pub u64);

/// Height in decimetres (tenths of a metre), the unit of the game data.
#[derive(Debug, Clone, Copy, PartialEq, Eq, Structural)]
pub struct Height(pub u64);

/// The generation an entity was introduced in.
#[derive(Debug, Clone, Copy, PartialEq, Eq, Structural)]
pub struct Generation(pub u8);

/// One guessable entity. Identity is by `name`.
#[derive(Debug, PartialEq, Clone)]
pub struct Pokemon {
    pub name: String,
    pub height: Height,
    pub weight: Weight,
    pub types: Vec<Type>,
    pub color: Color,
    pub generation: Generation,
}

/// Verdict on a numeric attribute, from the guess's point of view.
#[derive(Debug, Clone, Copy, PartialEq, Eq, Structural)]
pub enum NumberComparison {
    Higher,
    Lower,
    Equal,
}

/// Verdict on the list of types.
#[derive(Debug, Clone, Copy, PartialEq, Eq, Structural)]
pub enum TypesComparison {
    Different,
    Equal,
    PartiallyEqual,
}

/// Verdict on the colour.
#[derive(Debug, Clone, Copy, PartialEq, Eq, Structural)]
pub enum ColorComparison {
    Different,
    Equal,
}

/// One verdict per attribute of a guess against the target.
#[derive(Debug, Clone, Copy, PartialEq, Eq, Structural)]
pub struct PokemonComparison {
    pub height: NumberComparison,
    pub weight: NumberComparison,
    pub types: TypesComparison,
    pub color: ColorComparison,
    pub generation: NumberComparison,
}

/// The types of an entity as a sequence of strings, in stored order.
pub open spec fn type_names(types: Seq<Type>) -> Seq<Seq<char>> {
    types.map_values(|t: Type| t.0@)
}

/// `higher` when the guessed value is greater than the target's, `lower`
/// when smaller, `equal` when the same.
pub open spec fn number_verdict(guess: int, target: int) -> NumberComparison {
    if guess == target {
        NumberComparison::Equal
    } else if guess > target {
        NumberComparison::Higher
    } else {
        NumberComparison::Lower
    }
}

/// Some type of the guess occurs among the target's types.
pub open spec fn share_a_type(guess: Seq<Seq<char>>, target: Seq<Seq<char>>) -> bool {
    exists|i: int| 0 <= i < guess.len() && #[trigger] target.contains(guess[i])
}

/// `equal` for identical ordered lists, else `partially_equal` when one type
/// is shared, else `different`.
pub open spec fn types_verdict(guess: Seq<Seq<char>>, target: Seq<Seq<char>>) -> TypesComparison {
    if guess == target {
        TypesComparison::Equal
    } else if share_a_type(guess, target) {
        TypesComparison::PartiallyEqual
    } else {
        TypesComparison::Different
    }
}

/// `equal` for the same colour name (case-sensitive), else `different`.
pub open spec fn color_verdict(guess: Seq<char>, target: Seq<char>) -> ColorComparison {
    if guess == target {
        ColorComparison::Equal
    } else {
        ColorComparison::Different
    }
}

/// The comparison of `guess` against `target`, attribute by attribute.
pub open spec fn comparison_of(guess: Pokemon, target: Pokemon) -> PokemonComparison {
    PokemonComparison {
        height: number_verdict(guess.height.0 as int, target.height.0 as int),
        weight: number_verdict(guess.weight.0 as int, target.weight.0 as int),
        types: types_verdict(type_names(guess.types@), type_names(target.types@)),
        color: color_verdict(guess.color.0@, target.color.0@),
        generation: number_verdict(guess.generation.0 as int, target.generation.0 as int),
    }
}

/// The comparison with every verdict `equal`.
pub open spec fn all_equal() -> PokemonComparison {
    PokemonComparison {
        height: NumberComparison::Equal,
        weight: NumberComparison::Equal,
        types: TypesComparison::Equal,
        color: ColorComparison::Equal,
        generation: NumberComparison::Equal,
    }
}

/// A numeric verdict seen from the other side: `higher` and `lower` swap.
pub open spec fn flip_number(v: NumberComparison) -> NumberComparison {
    match v {
        NumberComparison::Higher => NumberComparison::Lower,
        NumberComparison::Lower => NumberComparison::Higher,
        NumberComparison::Equal => NumberComparison::Equal,
    }
}

/// A comparison seen from the other side: numeric verdicts flip, the others stay.
pub open spec fn flip(c: PokemonComparison) -> PokemonComparison {
    PokemonComparison {
        height: flip_number(c.height),
        weight: flip_number(c.weight),
        types: c.types,
        color: c.color,
        generation: flip_number(c.generation),
    }
}

/// The text of a numeric verdict.
pub open spec fn number_label(v: NumberComparison) -> Seq<char> {
    match v {
        NumberComparison::Higher => "higher"@,
        NumberComparison::Lower => "lower"@,
        NumberComparison::Equal => "equal"@,
    }
}

/// The text of a types verdict.
pub open spec fn types_label(v: TypesComparison) -> Seq<char> {
    match v {
        TypesComparison::Different => "different"@,
        TypesComparison::PartiallyEqual => "partially_equal"@,
        TypesComparison::Equal => "equal"@,
    }
}

/// The text of a colour verdict.
pub open spec fn color_label(v: ColorComparison) -> Seq<char> {
    match v {
        ColorComparison::Different => "different"@,
        ColorComparison::Equal => "equal"@,
    }
}

impl NumberComparison {
    /// "higher", "lower" or "equal".
    pub fn to_string(&self) -> (r: String)
        ensures
            r@ == number_label(*self),
    {
        match self {
            NumberComparison::Higher => String::from_str("higher"),
            NumberComparison::Lower => String::from_str("lower"),
            NumberComparison::Equal => String::from_str("equal"),
        }
    }
}

impl TypesComparison {
    /// "different", "partially_equal" or "equal".
    pub fn to_string(&self) -> (r: String)
        ensures
            r@ == types_label(*self),
    {
        match self {
            TypesComparison::Different => String::from_str("different"),
            TypesComparison::PartiallyEqual => String::from_str("partially_equal"),
            TypesComparison::Equal => String::from_str("equal"),
        }
    }
}

impl ColorComparison {
    /// "different" or "equal".
    pub fn to_string(&self) -> (r: String)
        ensures
            r@ == color_label(*self),
    {
        match self {
            ColorComparison::Different => String::from_str("different"),
            ColorComparison::Equal => String::from_str("equal"),
        }
    }
}

/// `texts` spells the verdicts of `c`: height, weight, types, colour, generation.
pub open spec fn spells_verdicts(texts: [String; 5], c: PokemonComparison) -> bool {
    &&& texts[0]@ == number_label(c.height)
    &&& texts[1]@ == number_label(c.weight)
    &&& texts[2]@ == types_label(c.types)
    &&& texts[3]@ == color_label(c.color)
    &&& texts[4]@ == number_label(c.generation)
}

impl PokemonComparison {
    /// The five verdicts as text: height, weight, types, colour, generation.
    pub fn to_array_of_string(&self) -> (r: [String; 5])
        ensures
            spells_verdicts(r, *self),
    {
        [
            self.height.to_string(),
            self.weight.to_string(),
            self.types.to_string(),
            self.color.to_string(),
            self.generation.to_string(),
        ]
    }
}

impl Type {
    /// The type's name.
    pub fn to_string(&self) -> (r: String)
        ensures
            r@ == self.0@,
    {
        self.0.clone()
    }
}

impl Color {
    /// The colour's name.
    pub fn to_string(&self) -> (r: String)
        ensures
            r@ == self.0@,
    {
        self.0.clone()
    }
}

/// The character of the decimal digit `d`.
pub open spec fn digit_char(d: int) -> char {
    if d == 0 {
        '0'
    } else if d == 1 {
        '1'
    } else if d == 2 {
        '2'
    } else if d == 3 {
        '3'
    } else if d == 4 {
        '4'
    } else if d == 5 {
        '5'
    } else if d == 6 {
        '6'
    } else if d == 7 {
        '7'
    } else if d == 8 {
        '8'
    } else {
        '9'
    }
}

/// The decimal text of `n`, without leading zeros.
pub open spec fn decimal_text(n: nat) -> Seq<char>
    decreases n,
{
    if n < 10 {
        seq![digit_char(n as int)]
    } else {
        decimal_text(n / 10).push(digit_char((n % 10) as int))
    }
}

/// The decimal text of `n` tenths: the whole part, then a point and the
/// tenths digit unless it is zero ("0.7", "13").
pub open spec fn tenths_text(n: nat) -> Seq<char> {
    if n % 10 == 0 {
        decimal_text(n / 10)
    } else {
        decimal_text(n / 10) + seq!['.', digit_char((n % 10) as int)]
    }
}

fn digit_text(d: u64) -> (r: &'static str)
    requires
        d < 10,
    ensures
        r@ == seq![digit_char(d as int)],
{
    proof {
        reveal_strlit("0");
        reveal_strlit("1");
        reveal_strlit("2");
        reveal_strlit("3");
        reveal_strlit("4");
        reveal_strlit("5");
        reveal_strlit("6");
        reveal_strlit("7");
        reveal_strlit("8");
        reveal_strlit("9");
    }
    let r = if d == 0 {
        "0"
    } else if d == 1 {
        "1"
    } else if d == 2 {
        "2"
    } else if d == 3 {
        "3"
    } else if d == 4 {
        "4"
    } else if d == 5 {
        "5"
    } else if d == 6 {
        "6"
    } else if d == 7 {
        "7"
    } else if d == 8 {
        "8"
    } else {
        "9"
    };
    assert(r@ =~= seq![digit_char(d as int)]);
    r
}

fn decimal_string(value: u64) -> (r: String)
    ensures
        r@ == decimal_text(value as nat),
{
    let mut n: u64 = value;
    let mut acc = String::new();
    while n >= 10
        invariant
            decimal_text(value as nat) == decimal_text(n as nat) + acc@,
        decreases n,
    {
        let d = digit_text(n % 10);
        let ghost rest = acc@;
        acc = String::from_str(d).concat(acc.as_str());
        assert(decimal_text(n as nat) == decimal_text((n / 10) as nat).push(digit_char((n % 10) as int)));
        assert(decimal_text(n as nat) + rest =~= decimal_text((n / 10) as nat) + acc@);
        n = n / 10;
    }
    let r = String::from_str(digit_text(n)).concat(acc.as_str());
    assert(decimal_text(n as nat) == seq![digit_char(n as int)]);
    r
}

fn tenths_string(value: u64) -> (r: String)
    ensures
        r@ == tenths_text(value as nat),
{
    let whole = decimal_string(value / 10);
    if value % 10 == 0 {
        whole
    } else {
        proof {
            reveal_strlit(".");
        }
        let r = whole.concat(".").concat(digit_text(value % 10));
        assert(r@ =~= tenths_text(value as nat));
        r
    }
}

impl Weight {
    /// The weight in kilograms, as decimal text.
    pub fn to_string(&self) -> (r: String)
        ensures
            r@ == tenths_text(self.0 as nat),
    {
        tenths_string(self.0)
    }
}

impl Height {
    /// The height in metres, as decimal text.
    pub fn to_string(&self) -> (r: String)
        ensures
            r@ == tenths_text(self.0 as nat),
    {
        tenths_string(self.0)
    }
}

impl Generation {
    /// The generation number, as decimal text.
    pub fn to_string(&self) -> (r: String)
        ensures
            r@ == decimal_text(self.0 as nat),
    {
        decimal_string(self.0 as u64)
    }
}

fn number_comparison(guess: u64, target: u64) -> (r: NumberComparison)
    ensures
        r == number_verdict(guess as int, target as int),
{
    if guess == target {
        NumberComparison::Equal
    } else if guess > target {
        NumberComparison::Higher
    } else {
        NumberComparison::Lower
    }
}

/// Whether `types` holds a type named as `t`.
fn contains_type(types: &Vec<Type>, t: &Type) -> (r: bool)
    ensures
        r == type_names(types@).contains(t.0@),
{
    let mut i: usize = 0;
    while i < types.len()
        invariant
            0 <= i <= types.len(),
            forall|j: int| 0 <= j < i ==> types@[j].0@ != t.0@,
        decreases types.len() - i,
    {
        if types[i].0 == t.0 {
            assert(type_names(types@)[i as int] == t.0@);
            return true;
        }
        i = i + 1;
    }
    assert(!type_names(types@).contains(t.0@)) by {
        if type_names(types@).contains(t.0@) {
            let k = choose|k: int| 0 <= k < type_names(types@).len() && type_names(types@)[k] == t.0@;
            assert(types@[k].0@ == t.0@);
        }
    }
    false
}

/// Whether two type lists are equal as ordered sequences of names.
fn same_types(guess: &Vec<Type>, target: &Vec<Type>) -> (r: bool)
    ensures
        r == (type_names(guess@) == type_names(target@)),
{
    if guess.len() != target.len() {
        assert(type_names(guess@).len() != type_names(target@).len());
        return false;
    }
    let mut i: usize = 0;
    while i < guess.len()
        invariant
            0 <= i <= guess.len(),
            guess.len() == target.len(),
            forall|j: int| 0 <= j < i ==> guess@[j].0@ == target@[j].0@,
        decreases guess.len() - i,
    {
        if guess[i].0 != target[i].0 {
            assert(type_names(guess@)[i as int] != type_names(target@)[i as int]);
            return false;
        }
        i = i + 1;
    }
    assert(type_names(guess@) =~= type_names(target@));
    true
}

/// Compares the types of a guess against those of the target.
fn compare_types(guess: &Vec<Type>, target: &Vec<Type>) -> (r: TypesComparison)
    ensures
        r == types_verdict(type_names(guess@), type_names(target@)),
{
    if same_types(guess, target) {
        return TypesComparison::Equal;
    }
    let ghost g = type_names(guess@);
    let ghost t = type_names(target@);
    let mut common_type_found = false;
    let mut i: usize = 0;
    while i < guess.len()
        invariant
            0 <= i <= guess.len(),
            g == type_names(guess@),
            t == type_names(target@),
            common_type_found == exists|j: int| 0 <= j < i && #[trigger] t.contains(g[j]),
        decreases guess.len() - i,
    {
        if contains_type(target, &guess[i]) {
            common_type_found = true;
        }
        assert(g[i as int] == guess@[i as int].0@);
        i = i + 1;
    }
    if common_type_found {
        TypesComparison::PartiallyEqual
    } else {
        TypesComparison::Different
    }
}

/// Compares a guessed entity against the target on every attribute. Each
/// verdict describes the guess relative to the target.
pub fn compare_pokemons(guess: &Pokemon, pokemon_to_guess: &Pokemon) -> (r: PokemonComparison)
    ensures
        r == comparison_of(*guess, *pokemon_to_guess),
{
    let height = number_comparison(guess.height.0, pokemon_to_guess.height.0);
    let weight = number_comparison(guess.weight.0, pokemon_to_guess.weight.0);
    let types = compare_types(&guess.types, &pokemon_to_guess.types);
    let color = if guess.color.0 == pokemon_to_guess.color.0 {
        ColorComparison::Equal
    } else {
        ColorComparison::Different
    };
    let generation = number_comparison(
        guess.generation.0 as u64,
        pokemon_to_guess.generation.0 as u64,
    );
    PokemonComparison { height, weight, types, color, generation }
}

/// An entity compared against itself is `equal` on every attribute.
pub proof fn lemma_compare_reflexive(p: Pokemon)
    ensures
        comparison_of(p, p) == all_equal(),
{
}

/// Swapping guess and target flips every `higher`/`lower` verdict and keeps
/// every `equal`, `different` and `partially_equal` verdict.
pub proof fn lemma_compare_antisymmetric(a: Pokemon, b: Pokemon)
    ensures
        comparison_of(b, a) == flip(comparison_of(a, b)),
{
    let ta = type_names(a.types@);
    let tb = type_names(b.types@);
    assert(share_a_type(ta, tb) == share_a_type(tb, ta)) by {
        if share_a_type(ta, tb) {
            let i = choose|i: int| 0 <= i < ta.len() && #[trigger] tb.contains(ta[i]);
            let j = choose|j: int| 0 <= j < tb.len() && tb[j] == ta[i];
            assert(ta.contains(tb[j]));
        }
        if share_a_type(tb, ta) {
            let i = choose|i: int| 0 <= i < tb.len() && #[trigger] ta.contains(tb[i]);
            let j = choose|j: int| 0 <= j < ta.len() && ta[j] == tb[i];
            assert(tb.contains(ta[j]));
        }
    }
}

} // verus!
