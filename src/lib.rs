//! Server-side logic of a daily guessing game: one hidden target per locale,
//! rotated at most once a day, and an attribute-by-attribute comparison of
//! each guess against it.
use vstd::prelude::*;

pub mod pokemon;
pub mod rotation;

pub use pokemon::{
    compare_pokemons, Color, ColorComparison, Generation, Height, NumberComparison, Pokemon,
    PokemonComparison, Type, TypesComparison, Weight,
};
pub use rotation::{first_rotation_time, is_rotation_due, Timestamp, DAY_MILLIS};

use pokemon::{comparison_of, spells_verdicts};
use rotation::{current_time, random_index, rotation_due, RESET_OFFSET_MILLIS};

verus! {

/// A per-request failure.
#[derive(Debug, PartialEq, Clone)]
pub enum PokedleError {
    /// The locale code is not known to the registry.
    LangDoesNotExist(String),
    /// The guessed name is not among the locale's entities.
    PokemonDoesNotExist(String),
}

/// What a guess yields: the target itself, or how the guess compares to it.
#[derive(Debug, Clone, Copy, PartialEq, Eq, Structural)]
pub enum GuessResult {
    Success,
    Failure(PokemonComparison),
}

/// The abstract state of one locale.
pub struct LocaleView {
    /// Display names, index for index with `pokemons`.
    pub names: Seq<Seq<char>>,
    pub pokemons: Seq<Pokemon>,
    /// Index of the current target.
    pub daily: int,
    /// Index of the target before the most recent rotation, if any.
    pub previous: Option<int>,
    /// Instant of the most recent rotation, in milliseconds.
    pub last_update: int,
}

/// A locale state that the handler can hold: a non-empty entity list, a name
/// for each entity, and target indices inside the list.
pub open spec fn locale_valid(v: LocaleView) -> bool {
    &&& v.pokemons.len() > 0
    &&& v.names.len() == v.pokemons.len()
    &&& 0 <= v.daily < v.pokemons.len()
    &&& (v.previous matches Some(i) ==> 0 <= i < v.pokemons.len())
}

/// The state after a rotation check at `now` that draws `drawn` if a new
/// target is due: the current target becomes the previous one, `drawn`
/// becomes current and `now` the last rotation. When none is due, nothing changes.
pub open spec fn rotation_step(v: LocaleView, now: int, drawn: int) -> LocaleView {
    if rotation_due(now, v.last_update) {
        LocaleView { daily: drawn, previous: Some(v.daily), last_update: now, ..v }
    } else {
        v
    }
}

/// The display name of the target before the most recent rotation, or
/// `None` while no rotation has happened.
pub open spec fn previous_name(v: LocaleView) -> Option<Seq<char>> {
    match v.previous {
        Some(i) => Some(v.names[i]),
        None => None,
    }
}

/// Some entity of `pokemons` bears `name`.
pub open spec fn has_named(pokemons: Seq<Pokemon>, name: Seq<char>) -> bool {
    exists|i: int| 0 <= i < pokemons.len() && #[trigger] pokemons[i].name@ == name
}

/// `i` is the first position of an entity named `name`.
pub open spec fn is_first_named(pokemons: Seq<Pokemon>, name: Seq<char>, i: int) -> bool {
    &&& 0 <= i < pokemons.len()
    &&& pokemons[i].name@ == name
    &&& forall|j: int| 0 <= j < i ==> #[trigger] pokemons[j].name@ != name
}

/// `r` is the answer owed to a guess of `name` against the locale state `v`:
/// success on the target's name; otherwise the comparison of the first
/// entity of that name against the target; `PokemonDoesNotExist` when no
/// entity bears it.
pub open spec fn judged(v: LocaleView, name: Seq<char>, r: Result<GuessResult, PokedleError>) -> bool {
    let target = v.pokemons[v.daily];
    if name == target.name@ {
        r == Ok::<GuessResult, PokedleError>(GuessResult::Success)
    } else if has_named(v.pokemons, name) {
        exists|i: int|
            is_first_named(v.pokemons, name, i) && r == Ok::<GuessResult, PokedleError>(
                GuessResult::Failure(#[trigger] comparison_of(v.pokemons[i], target)),
            )
    } else {
        r matches Err(PokedleError::PokemonDoesNotExist(n)) && n@ == name
    }
}

/// The names of a list of strings.
pub open spec fn string_views(s: Seq<String>) -> Seq<Seq<char>> {
    s.map_values(|x: String| x@)
}

/// A rotation check less than a day after the last rotation changes nothing.
/// One at least a day after it draws anew: the drawn index becomes the target,
/// the target it replaces becomes the previous one, and the check's instant
/// becomes the last rotation.
pub proof fn lemma_rotation_window(v: LocaleView, elapsed: int, drawn: int)
    ensures
        elapsed < DAY_MILLIS ==> rotation_step(v, v.last_update + elapsed, drawn) == v,
        elapsed >= DAY_MILLIS ==> rotation_step(v, v.last_update + elapsed, drawn) == (LocaleView {
            daily: drawn,
            previous: Some(v.daily),
            last_update: v.last_update + elapsed,
            ..v
        }),
{
}

/// Checking again at the same instant changes nothing, whatever is drawn.
pub proof fn lemma_rotation_idempotent(v: LocaleView, now: int, drawn: int, drawn_again: int)
    ensures
        rotation_step(rotation_step(v, now, drawn), now, drawn_again) == rotation_step(v, now, drawn),
{
}

/// No previous target name exists until a rotation happens; after one, it is
/// the display name of the target that was current just before; a check that
/// does not rotate leaves it as it was.
pub proof fn lemma_previous_name(v: LocaleView, now: int, drawn: int)
    requires
        locale_valid(v),
    ensures
        v.previous is None ==> previous_name(v) is None,
        rotation_due(now, v.last_update) ==> previous_name(rotation_step(v, now, drawn)) == Some(
            v.names[v.daily],
        ),
        !rotation_due(now, v.last_update) ==> previous_name(rotation_step(v, now, drawn))
            == previous_name(v),
{
}

/// A guess of a name that no entity of the locale bears is answered with
/// `PokemonDoesNotExist`, whatever the current target.
pub proof fn lemma_unknown_name_rejected(
    v: LocaleView,
    name: Seq<char>,
    r: Result<GuessResult, PokedleError>,
)
    requires
        locale_valid(v),
        !has_named(v.pokemons, name),
        judged(v, name, r),
    ensures
        r matches Err(PokedleError::PokemonDoesNotExist(n)) && n@ == name,
{
    assert(v.pokemons[v.daily].name@ != name);
}

/// A guess in a locale the registry does not hold is answered with
/// `LangDoesNotExist`, and no locale goes through a rotation check.
pub proof fn lemma_unknown_locale_rejected(
    before: Map<Seq<char>, LocaleView>,
    after: Map<Seq<char>, LocaleView>,
    lang: Seq<char>,
    name: Seq<char>,
    now: int,
    r: Result<GuessResult, PokedleError>,
)
    requires
        !before.contains_key(lang),
        guess_answered(before, after, lang, name, now, r),
    ensures
        after == before,
        r matches Err(PokedleError::LangDoesNotExist(l)) && l@ == lang,
{
}

/// One locale's game: its entities and names, the current and previous
/// targets, and when the target last changed.
pub struct PokemonHandler {
    pokemon_names: Vec<String>,
    pokemons: Vec<Pokemon>,
    daily_pokemon_index: usize,
    last_pokemon_update: Timestamp,
    previous_daily_pokemon_index: Option<usize>,
}

impl View for PokemonHandler {
    type V = LocaleView;

    closed spec fn view(&self) -> LocaleView {
        LocaleView {
            names: string_views(self.pokemon_names@),
            pokemons: self.pokemons@,
            daily: self.daily_pokemon_index as int,
            previous: match self.previous_daily_pokemon_index {
                Some(i) => Some(i as int),
                None => None,
            },
            last_update: self.last_pokemon_update.0 as int,
        }
    }
}

impl PokemonHandler {
    #[verifier::type_invariant]
    spec fn well_formed(self) -> bool {
        locale_valid(self@)
    }

    /// A handler with a chosen target and last rotation, before any rotation.
    pub fn with_state(
        pokemon_names: Vec<String>,
        pokemons: Vec<Pokemon>,
        daily_pokemon_index: usize,
        last_pokemon_update: Timestamp,
    ) -> (r: PokemonHandler)
        requires
            pokemons.len() > 0,
            pokemon_names.len() == pokemons.len(),
            daily_pokemon_index < pokemons.len(),
        ensures
            r@ == (LocaleView {
                names: string_views(pokemon_names@),
                pokemons: pokemons@,
                daily: daily_pokemon_index as int,
                previous: None,
                last_update: last_pokemon_update.0 as int,
            }),
    {
        PokemonHandler {
            pokemon_names,
            pokemons,
            daily_pokemon_index,
            last_pokemon_update,
            previous_daily_pokemon_index: None,
        }
    }

    /// A handler with a random target, whose first rotation is anchored at
    /// 06:00 UTC of the current day.
    pub fn new(pokemon_names: Vec<String>, pokemons: Vec<Pokemon>) -> (r: PokemonHandler)
        requires
            pokemons.len() > 0,
            pokemon_names.len() == pokemons.len(),
        ensures
            r@.names == string_views(pokemon_names@),
            r@.pokemons == pokemons@,
            0 <= r@.daily < pokemons.len(),
            r@.previous is None,
            r@.last_update % (DAY_MILLIS as int) == RESET_OFFSET_MILLIS,
    {
        let daily = random_index(pokemons.len());
        let first_generation = first_rotation_time(current_time());
        PokemonHandler::with_state(pokemon_names, pokemons, daily, first_generation)
    }

    /// The first entity named `name`, or `PokemonDoesNotExist`.
    pub fn get_pokemon_by_name(&self, name: &str) -> (r: Result<&Pokemon, PokedleError>)
        ensures
            match r {
                Ok(p) => exists|i: int|
                    is_first_named(self@.pokemons, name@, i) && *p == self@.pokemons[i],
                Err(e) => {
                    &&& !has_named(self@.pokemons, name@)
                    &&& (e matches PokedleError::PokemonDoesNotExist(n) && n@ == name@)
                },
            },
    {
        let key = name.to_owned();
        let mut i: usize = 0;
        while i < self.pokemons.len()
            invariant
                0 <= i <= self.pokemons.len(),
                key@ == name@,
                forall|j: int| 0 <= j < i ==> #[trigger] self.pokemons@[j].name@ != name@,
            decreases self.pokemons.len() - i,
        {
            if self.pokemons[i].name == key {
                assert(is_first_named(self@.pokemons, name@, i as int));
                return Ok(&self.pokemons[i]);
            }
            i = i + 1;
        }
        Err(PokedleError::PokemonDoesNotExist(key))
    }

    /// The current target.
    pub fn get_daily_pokemon(&self) -> (r: &Pokemon)
        ensures
            *r == self@.pokemons[self@.daily],
    {
        proof {
            use_type_invariant(self);
        }
        &self.pokemons[self.daily_pokemon_index]
    }

    /// Whether a new target is due at `now`.
    pub fn is_update_needed(&self, now: Timestamp) -> (r: bool)
        ensures
            r == rotation_due(now.0 as int, self@.last_update),
    {
        is_rotation_due(now, self.last_pokemon_update)
    }

    /// The rotation check at `now`, taking `drawn` as the new target if one is due.
    pub fn refresh_with_draw(&mut self, now: Timestamp, drawn: usize)
        requires
            drawn < old(self)@.pokemons.len(),
        ensures
            final(self)@ == rotation_step(old(self)@, now.0 as int, drawn as int),
    {
        proof {
            use_type_invariant(&*self);
        }
        if self.is_update_needed(now) {
            self.previous_daily_pokemon_index = Some(self.daily_pokemon_index);
            self.daily_pokemon_index = drawn;
            self.last_pokemon_update = now;
        }
    }

    /// The rotation check at `now`, drawing the new target at random if one is due.
    pub fn refresh_if_due(&mut self, now: Timestamp)
        ensures
            final(self)@ == rotation_step(old(self)@, now.0 as int, final(self)@.daily),
            0 <= final(self)@.daily < old(self)@.pokemons.len(),
    {
        proof {
            use_type_invariant(&*self);
        }
        if self.is_update_needed(now) {
            let drawn = random_index(self.pokemons.len());
            self.refresh_with_draw(now, drawn);
        }
    }

    /// The rotation check at the current instant.
    pub fn update_daily_pokemon_if_needed(&mut self)
        ensures
            exists|now: int|
                final(self)@ == rotation_step(old(self)@, now, final(self)@.daily),
            0 <= final(self)@.daily < old(self)@.pokemons.len(),
    {
        proof {
            use_type_invariant(&*self);
        }
        let now = current_time();
        self.refresh_if_due(now);
    }

    /// The answer to a guess of `name` against the current target, with no
    /// rotation check.
    pub fn judge_guess(&self, name: &str) -> (r: Result<GuessResult, PokedleError>)
        ensures
            judged(self@, name@, r),
    {
        let daily_pokemon = self.get_daily_pokemon();
        let key = name.to_owned();
        if key == daily_pokemon.name {
            Ok(GuessResult::Success)
        } else {
            match self.get_pokemon_by_name(name) {
                Ok(input_pokemon) => {
                    let comparison = compare_pokemons(input_pokemon, daily_pokemon);
                    Ok(GuessResult::Failure(comparison))
                },
                Err(e) => Err(e),
            }
        }
    }

    /// The display name of the target before the most recent rotation.
    pub fn previous_pokemon_name(&self) -> (r: Option<String>)
        ensures
            match r {
                Some(s) => previous_name(self@) == Some(s@),
                None => previous_name(self@) is None,
            },
    {
        proof {
            use_type_invariant(self);
        }
        match self.previous_daily_pokemon_index {
            Some(index) => Some(self.pokemon_names[index].clone()),
            None => None,
        }
    }

    /// The display names, index for index with the entities.
    pub fn pokemon_names(&self) -> (r: &Vec<String>)
        ensures
            string_views(r@) == self@.names,
    {
        &self.pokemon_names
    }

    /// Index of the current target.
    pub fn daily_pokemon_index(&self) -> (r: usize)
        ensures
            r == self@.daily,
    {
        self.daily_pokemon_index
    }

    /// Index of the target before the most recent rotation.
    pub fn previous_daily_pokemon_index(&self) -> (r: Option<usize>)
        ensures
            match r {
                Some(i) => self@.previous == Some(i as int),
                None => self@.previous is None,
            },
    {
        self.previous_daily_pokemon_index
    }

    /// Instant of the most recent rotation.
    pub fn last_pokemon_update(&self) -> (r: Timestamp)
        ensures
            r.0 == self@.last_update,
    {
        self.last_pokemon_update
    }
}

/// A guess result in flat, text-only form, as handed to host-language
/// bindings: no comparison on success, else the five verdict texts.
pub struct PythonGuessResult {
    pub comparison: Option<[String; 5]>,
}

impl PythonGuessResult {
    pub fn new(guess_result: GuessResult) -> (r: PythonGuessResult)
        ensures
            match guess_result {
                GuessResult::Success => r.comparison is None,
                GuessResult::Failure(c) => r.comparison matches Some(texts) && spells_verdicts(texts, c),
            },
    {
        match guess_result {
            GuessResult::Success => PythonGuessResult { comparison: None },
            GuessResult::Failure(pokemon_comparison) => PythonGuessResult {
                comparison: Some(pokemon_comparison.to_array_of_string()),
            },
        }
    }

    /// Whether the guess named the target.
    pub fn is_success(&self) -> (r: bool)
        ensures
            r == self.comparison is None,
    {
        self.comparison.is_none()
    }
}

/// A construction-time failure.
#[derive(Debug, Clone, Copy, PartialEq, Eq, Structural)]
pub enum PokedleInitError {
    /// The name lists and the entity lists do not cover the same locales.
    IncoherentData,
}

/// The locale codes of loader entries, in order.
pub open spec fn locale_codes<T>(entries: Seq<(String, T)>) -> Seq<Seq<char>> {
    entries.map_values(|e: (String, T)| e.0@)
}

/// Both loader mappings cover exactly the same locale codes.
pub open spec fn same_locales<A, B>(names: Seq<(String, A)>, pokemons: Seq<(String, B)>) -> bool {
    locale_codes(names).to_set() == locale_codes(pokemons).to_set()
}

/// A locale state fresh from construction out of `names` and `pokemons`:
/// some target drawn, no previous target, first rotation at 06:00 UTC.
pub open spec fn fresh_locale(v: LocaleView, names: Seq<String>, pokemons: Seq<Pokemon>) -> bool {
    &&& v.names == string_views(names)
    &&& v.pokemons == pokemons
    &&& 0 <= v.daily < pokemons.len()
    &&& v.previous is None
    &&& v.last_update % (DAY_MILLIS as int) == RESET_OFFSET_MILLIS
}

/// What a guess of `name` in locale `lang` at `now` does, from the registry
/// state `before` to `after`, answering `r`: an unknown locale is reported
/// with nothing changed; otherwise that locale alone goes through the
/// rotation check and the guess is judged against its (possibly new) target.
pub open spec fn guess_answered(
    before: Map<Seq<char>, LocaleView>,
    after: Map<Seq<char>, LocaleView>,
    lang: Seq<char>,
    name: Seq<char>,
    now: int,
    r: Result<GuessResult, PokedleError>,
) -> bool {
    if before.contains_key(lang) {
        let h = after[lang];
        &&& after == before.insert(lang, h)
        &&& h == rotation_step(before[lang], now, h.daily)
        &&& 0 <= h.daily < h.pokemons.len()
        &&& judged(h, name, r)
    } else {
        &&& after == before
        &&& (r matches Err(PokedleError::LangDoesNotExist(l)) && l@ == lang)
    }
}

/// Position of the entry whose locale code is `key`.
fn find_code<T>(entries: &Vec<(String, T)>, key: &String) -> (r: Option<usize>)
    ensures
        match r {
            Some(j) => j < entries.len() && entries@[j as int].0@ == key@,
            None => !locale_codes(entries@).contains(key@),
        },
{
    let mut j: usize = 0;
    while j < entries.len()
        invariant
            0 <= j <= entries.len(),
            forall|k: int| 0 <= k < j ==> #[trigger] entries@[k].0@ != key@,
        decreases entries.len() - j,
    {
        if entries[j].0 == *key {
            return Some(j);
        }
        j = j + 1;
    }
    assert(!locale_codes(entries@).contains(key@)) by {
        if locale_codes(entries@).contains(key@) {
            let k = choose|k: int| 0 <= k < entries.len() && locale_codes(entries@)[k] == key@;
            assert(entries@[k].0@ == key@);
        }
    }
    None
}

/// Whether the two loader mappings cover the same locale codes.
fn same_locale_codes<A, B>(names: &Vec<(String, A)>, pokemons: &Vec<(String, B)>) -> (r: bool)
    requires
        locale_codes(names@).no_duplicates(),
        locale_codes(pokemons@).no_duplicates(),
    ensures
        r == same_locales(names@, pokemons@),
{
    let ghost cn = locale_codes(names@);
    let ghost cp = locale_codes(pokemons@);
    proof {
        cn.unique_seq_to_set();
        cp.unique_seq_to_set();
    }
    if names.len() != pokemons.len() {
        return false;
    }
    let mut i: usize = 0;
    while i < names.len()
        invariant
            0 <= i <= names.len(),
            cn == locale_codes(names@),
            cp == locale_codes(pokemons@),
            forall|k: int| 0 <= k < i ==> cp.contains(#[trigger] cn[k]),
        decreases names.len() - i,
    {
        match find_code(pokemons, &names[i].0) {
            Some(j) => {
                assert(cp[j as int] == cn[i as int]);
            },
            None => {
                assert(cn.to_set().contains(cn[i as int]));
                return false;
            },
        }
        i = i + 1;
    }
    proof {
        assert(cn.to_set().subset_of(cp.to_set())) by {
            assert forall|c: Seq<char>| cn.to_set().contains(c) implies cp.to_set().contains(c) by {
                let k = choose|k: int| 0 <= k < cn.len() && cn[k] == c;
                assert(cp.contains(cn[k]));
            }
        }
        vstd::set_lib::lemma_subset_equality(cn.to_set(), cp.to_set());
    }
    true
}

/// The games of every locale, by locale code.
pub struct Pokedle {
    langs: Vec<String>,
    handlers: Vec<PokemonHandler>,
}

/// Position of the locale code `lang` among `langs`.
pub open spec fn code_position(langs: Seq<Seq<char>>, lang: Seq<char>) -> int {
    choose|i: int| 0 <= i < langs.len() && langs[i] == lang
}

impl View for Pokedle {
    type V = Map<Seq<char>, LocaleView>;

    closed spec fn view(&self) -> Map<Seq<char>, LocaleView> {
        Map::new(
            |l: Seq<char>| string_views(self.langs@).contains(l),
            |l: Seq<char>| self.handlers@[code_position(string_views(self.langs@), l)]@,
        )
    }
}

/// The state of the locale at position `i` is what the registry maps its code to.
proof fn lemma_locale_at(p: &Pokedle, i: int)
    requires
        p.langs.len() == p.handlers.len(),
        string_views(p.langs@).no_duplicates(),
        0 <= i < p.langs.len(),
    ensures
        p@.contains_key(p.langs@[i]@),
        p@[p.langs@[i]@] == p.handlers@[i]@,
{
    let codes = string_views(p.langs@);
    assert(codes[i] == p.langs@[i]@);
    let k = code_position(codes, p.langs@[i]@);
    assert(codes[k] == codes[i]);
}

impl Pokedle {
    #[verifier::type_invariant]
    spec fn well_formed(self) -> bool {
        &&& self.langs.len() == self.handlers.len()
        &&& string_views(self.langs@).no_duplicates()
    }

    /// A registry from one handler per locale code.
    pub fn from_handlers(langs: Vec<String>, handlers: Vec<PokemonHandler>) -> (r: Pokedle)
        requires
            langs.len() == handlers.len(),
            string_views(langs@).no_duplicates(),
        ensures
            r@.dom() == string_views(langs@).to_set(),
            forall|i: int| 0 <= i < langs.len() ==> #[trigger] r@[langs@[i]@] == handlers@[i]@,
    {
        let r = Pokedle { langs, handlers };
        proof {
            assert forall|i: int| 0 <= i < r.langs.len() implies #[trigger] r@[r.langs@[i]@]
                == r.handlers@[i]@ by {
                lemma_locale_at(&r, i);
            }
            assert(r@.dom() =~= string_views(r.langs@).to_set());
        }
        r
    }

    /// The registry built from the loader's two mappings, locale code to
    /// display names and locale code to entities, each locale with a random
    /// first target. Fails when the two mappings cover different locales.
    pub fn new(
        names: Vec<(String, Vec<String>)>,
        pokemons: Vec<(String, Vec<Pokemon>)>,
    ) -> (r: Result<Pokedle, PokedleInitError>)
        requires
            locale_codes(names@).no_duplicates(),
            locale_codes(pokemons@).no_duplicates(),
            forall|i: int, j: int|
                0 <= i < names.len() && 0 <= j < pokemons.len() && #[trigger] names@[i].0@
                    == #[trigger] pokemons@[j].0@ ==> pokemons@[j].1.len() > 0
                    && names@[i].1.len() == pokemons@[j].1.len(),
        ensures
            match r {
                Ok(p) => {
                    &&& same_locales(names@, pokemons@)
                    &&& p@.dom() == locale_codes(names@).to_set()
                    &&& forall|i: int, j: int|
                        0 <= i < names.len() && 0 <= j < pokemons.len() && #[trigger] names@[i].0@
                            == #[trigger] pokemons@[j].0@ ==> fresh_locale(
                            p@[names@[i].0@],
                            names@[i].1@,
                            pokemons@[j].1@,
                        )
                },
                Err(PokedleInitError::IncoherentData) => !same_locales(names@, pokemons@),
            },
    {
        if !same_locale_codes(&names, &pokemons) {
            return Err(PokedleInitError::IncoherentData);
        }
        let ghost names0 = names@;
        let ghost pokemons0 = pokemons@;
        let ghost n0 = names@.len() as int;
        let mut names = names;
        let mut pokemons = pokemons;
        let mut langs: Vec<String> = Vec::new();
        let mut handlers: Vec<PokemonHandler> = Vec::new();
        while names.len() > 0
            invariant
                0 <= names.len() <= n0,
                n0 == names0.len(),
                names@ == names0.subrange(0, names.len() as int),
                pokemons.len() == pokemons0.len(),
                forall|j: int|
                    0 <= j < pokemons.len() ==> #[trigger] pokemons@[j].0 == pokemons0[j].0,
                // entries whose locale was not handled yet are untouched
                forall|j: int|
                    0 <= j < pokemons.len() && (forall|k: int|
                        names.len() <= k < n0 ==> names0[k].0@ != pokemons0[j].0@)
                        ==> #[trigger] pokemons@[j] == pokemons0[j],
                langs.len() == n0 - names.len(),
                handlers.len() == langs.len(),
                // handled locales, last entry first
                forall|t: int|
                    0 <= t < langs.len() ==> #[trigger] langs@[t]@ == names0[n0 - 1 - t].0@,
                forall|t: int, j: int|
                    0 <= t < langs.len() && 0 <= j < pokemons0.len() && names0[n0 - 1 - t].0@
                        == #[trigger] pokemons0[j].0@ ==> fresh_locale(
                        #[trigger] handlers@[t]@,
                        names0[n0 - 1 - t].1@,
                        pokemons0[j].1@,
                    ),
                same_locales(names0, pokemons0),
                locale_codes(names0).no_duplicates(),
                locale_codes(pokemons0).no_duplicates(),
                forall|i: int, j: int|
                    0 <= i < names0.len() && 0 <= j < pokemons0.len() && #[trigger] names0[i].0@
                        == #[trigger] pokemons0[j].0@ ==> pokemons0[j].1.len() > 0
                        && names0[i].1.len() == pokemons0[j].1.len(),
            decreases names.len(),
        {
            let ghost k: int = names.len() - 1;
            let ghost before_pop = names@;
            let entry = names.pop();
            assert(before_pop[k] == names0[k]);
            let (lang, lang_names) = entry.unwrap();
            assert(names0[k] == (lang, lang_names));
            proof {
                assert(locale_codes(names0)[k] == lang@);
                assert(locale_codes(names0).to_set().contains(lang@));
            }
            let j = match find_code(&pokemons, &lang) {
                Some(j) => j,
                None => {
                    proof {
                        assert(locale_codes(pokemons0).to_set().contains(lang@));
                        let j = choose|j: int|
                            0 <= j < pokemons0.len() && locale_codes(pokemons0)[j] == lang@;
                        assert(locale_codes(pokemons@)[j] == lang@);
                    }
                    return Err(PokedleInitError::IncoherentData);
                },
            };
            proof {
                assert forall|kk: int| names.len() + 1 <= kk < n0 implies names0[kk].0@
                    != pokemons0[j as int].0@ by {
                    assert(locale_codes(names0)[kk] != locale_codes(names0)[k]);
                }
                assert(pokemons@[j as int] == pokemons0[j as int]);
            }
            let mut lang_pokemons: Vec<Pokemon> = Vec::new();
            std::mem::swap(&mut lang_pokemons, &mut pokemons[j].1);
            let handler = PokemonHandler::new(lang_names, lang_pokemons);
            langs.push(lang);
            handlers.push(handler);
            proof {
                assert forall|jj: int|
                    0 <= jj < pokemons.len() && (forall|kk: int|
                        names.len() <= kk < n0 ==> names0[kk].0@ != pokemons0[jj].0@) implies
                    #[trigger] pokemons@[jj] == pokemons0[jj] by {
                    assert(names0[k].0@ != pokemons0[jj].0@);
                }
                assert forall|t: int, jj: int|
                    0 <= t < langs.len() && 0 <= jj < pokemons0.len() && names0[n0 - 1 - t].0@
                        == #[trigger] pokemons0[jj].0@ implies fresh_locale(
                    #[trigger] handlers@[t]@,
                    names0[n0 - 1 - t].1@,
                    pokemons0[jj].1@,
                ) by {
                    if t == langs.len() - 1 {
                        assert(locale_codes(pokemons0)[jj] == locale_codes(pokemons0)[j as int]);
                    }
                }
            }
        }
        proof {
            assert(string_views(langs@).no_duplicates()) by {
                assert forall|a: int, b: int| 0 <= a < langs.len() && 0 <= b < langs.len() && a != b
                    implies string_views(langs@)[a] != string_views(langs@)[b] by {
                    assert(locale_codes(names0)[n0 - 1 - a] != locale_codes(names0)[n0 - 1 - b]);
                }
            }
        }
        let p = Pokedle::from_handlers(langs, handlers);
        proof {
            let codes = locale_codes(names0);
            assert(p@.dom() =~= codes.to_set()) by {
                assert forall|l: Seq<char>| codes.to_set().contains(l) implies p@.dom().contains(l) by {
                    let i = choose|i: int| 0 <= i < codes.len() && codes[i] == l;
                    assert(string_views(langs@)[n0 - 1 - i] == l);
                }
                assert forall|l: Seq<char>| p@.dom().contains(l) implies codes.to_set().contains(l) by {
                    let t = choose|t: int| 0 <= t < langs.len() && string_views(langs@)[t] == l;
                    assert(codes[n0 - 1 - t] == l);
                }
            }
            assert forall|i: int, j: int|
                0 <= i < names0.len() && 0 <= j < pokemons0.len() && #[trigger] names0[i].0@
                    == #[trigger] pokemons0[j].0@ implies fresh_locale(
                p@[names0[i].0@],
                names0[i].1@,
                pokemons0[j].1@,
            ) by {
                let t = n0 - 1 - i;
                assert(langs@[t]@ == names0[i].0@);
                assert(p@[langs@[t]@] == handlers@[t]@);
            }
        }
        Ok(p)
    }

    /// Position of `lang` among the locale codes.
    fn find_lang(&self, lang: &String) -> (r: Option<usize>)
        ensures
            match r {
                Some(i) => i < self.langs.len() && self.langs@[i as int]@ == lang@,
                None => !self@.contains_key(lang@),
            },
    {
        let mut i: usize = 0;
        while i < self.langs.len()
            invariant
                0 <= i <= self.langs.len(),
                forall|k: int| 0 <= k < i ==> #[trigger] self.langs@[k]@ != lang@,
            decreases self.langs.len() - i,
        {
            if self.langs[i] == *lang {
                return Some(i);
            }
            i = i + 1;
        }
        assert(!self@.contains_key(lang@)) by {
            if string_views(self.langs@).contains(lang@) {
                let k = choose|k: int|
                    0 <= k < self.langs.len() && string_views(self.langs@)[k] == lang@;
                assert(self.langs@[k]@ == lang@);
            }
        }
        None
    }

    /// A guess of `pokemon_name` in locale `lang`, with the rotation check
    /// made at `now`.
    pub fn guess_at(&mut self, lang: &str, pokemon_name: &str, now: Timestamp) -> (r: Result<
        GuessResult,
        PokedleError,
    >)
        ensures
            guess_answered(old(self)@, final(self)@, lang@, pokemon_name@, now.0 as int, r),
    {
        proof {
            use_type_invariant(&*self);
        }
        let key = lang.to_owned();
        match self.find_lang(&key) {
            None => Err(PokedleError::LangDoesNotExist(key)),
            Some(i) => {
                proof {
                    lemma_locale_at(&*self, i as int);
                }
                let ghost before = self@;
                let ghost old_handlers = self.handlers@;
                proof {
                    assert forall|k: int| 0 <= k < self.langs.len() implies #[trigger] before[
                        self.langs@[k]@
                    ] == old_handlers[k]@ by {
                        lemma_locale_at(&*self, k);
                    }
                }
                self.handlers[i].refresh_if_due(now);
                let r = self.handlers[i].judge_guess(pokemon_name);
                proof {
                    use_type_invariant(&*self);
                    lemma_locale_at(&*self, i as int);
                    assert forall|k: int| 0 <= k < self.langs.len() && k != i implies #[trigger] self@[
                        self.langs@[k]@
                    ] == before[self.langs@[k]@] by {
                        lemma_locale_at(&*self, k);
                        assert(self.handlers@[k] == old_handlers[k]);
                    }
                    assert(self@ =~= before.insert(lang@, self@[lang@])) by {
                        assert forall|l: Seq<char>| #[trigger]
                            self@.contains_key(l) && l != lang@ implies self@[l] == before[l] by {
                            let k = choose|k: int|
                                0 <= k < self.langs.len() && string_views(self.langs@)[k] == l;
                            assert(self.langs@[k]@ == l);
                        }
                    }
                }
                r
            },
        }
    }

    /// A guess of `pokemon_name` in locale `lang`, with the rotation check
    /// made at the current instant.
    pub fn guess(&mut self, lang: &str, pokemon_name: &str) -> (r: Result<
        GuessResult,
        PokedleError,
    >)
        ensures
            exists|now: int|
                guess_answered(old(self)@, final(self)@, lang@, pokemon_name@, now, r),
    {
        let now = current_time();
        self.guess_at(lang, pokemon_name, now)
    }

    /// The display names of locale `lang`.
    pub fn get_names(&self, lang: &str) -> (r: Result<&Vec<String>, PokedleError>)
        ensures
            match r {
                Ok(names) => self@.contains_key(lang@) && string_views(names@)
                    == self@[lang@].names,
                Err(e) => {
                    &&& !self@.contains_key(lang@)
                    &&& (e matches PokedleError::LangDoesNotExist(l) && l@ == lang@)
                },
            },
    {
        proof {
            use_type_invariant(self);
        }
        let key = lang.to_owned();
        match self.find_lang(&key) {
            None => Err(PokedleError::LangDoesNotExist(key)),
            Some(i) => {
                proof {
                    lemma_locale_at(self, i as int);
                }
                Ok(self.handlers[i].pokemon_names())
            },
        }
    }

    /// The display name of the target of locale `lang` before its most
    /// recent rotation; `None` while it has not rotated.
    pub fn get_previous_pokemon_to_guess_name(&self, lang: &str) -> (r: Result<
        Option<String>,
        PokedleError,
    >)
        ensures
            match r {
                Ok(Some(s)) => self@.contains_key(lang@) && previous_name(self@[lang@]) == Some(
                    s@,
                ),
                Ok(None) => self@.contains_key(lang@) && previous_name(self@[lang@]) is None,
                Err(e) => {
                    &&& !self@.contains_key(lang@)
                    &&& (e matches PokedleError::LangDoesNotExist(l) && l@ == lang@)
                },
            },
    {
        proof {
            use_type_invariant(self);
        }
        let key = lang.to_owned();
        match self.find_lang(&key) {
            None => Err(PokedleError::LangDoesNotExist(key)),
            Some(i) => {
                proof {
                    lemma_locale_at(self, i as int);
                }
                Ok(self.handlers[i].previous_pokemon_name())
            },
        }
    }

    /// The first entity named `pokemon_name` in locale `lang`.
    pub fn get_pokemon_by_name(&self, lang: &str, pokemon_name: &str) -> (r: Result<
        &Pokemon,
        PokedleError,
    >)
        ensures
            match r {
                Ok(p) => {
                    &&& self@.contains_key(lang@)
                    &&& exists|i: int|
                        is_first_named(self@[lang@].pokemons, pokemon_name@, i) && *p
                            == self@[lang@].pokemons[i]
                },
                Err(PokedleError::LangDoesNotExist(l)) => !self@.contains_key(lang@) && l@
                    == lang@,
                Err(PokedleError::PokemonDoesNotExist(n)) => {
                    &&& self@.contains_key(lang@)
                    &&& !has_named(self@[lang@].pokemons, pokemon_name@)
                    &&& n@ == pokemon_name@
                },
            },
    {
        proof {
            use_type_invariant(self);
        }
        let key = lang.to_owned();
        match self.find_lang(&key) {
            None => Err(PokedleError::LangDoesNotExist(key)),
            Some(i) => {
                proof {
                    lemma_locale_at(self, i as int);
                }
                self.handlers[i].get_pokemon_by_name(pokemon_name)
            },
        }
    }
}

} // verus!
