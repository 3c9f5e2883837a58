use vstd::prelude::*;

verus! {

/// How freely the model may vary its answers.
#[derive(Clone, Copy, Debug, PartialEq, Eq, Structural)]
pub enum Temperature {
    Deterministic,
    Strict,
    Explaining,
    Converastion,
    Creative,
}

/// The name under which a temperature is shown.
pub open spec fn temperature_name(t: Temperature) -> Seq<char> {
    match t {
        Temperature::Deterministic => "Deterministic"@,
        Temperature::Strict => "Strict"@,
        Temperature::Explaining => "Explaining"@,
        Temperature::Converastion => "Conversation"@,
        Temperature::Creative => "Creative"@,
    }
}

impl Default for Temperature {
    fn default() -> (r: Self)
        ensures
            r == Temperature::Explaining,
    {
        Temperature::Explaining
    }
}

/// The temperatures in the order they are offered.
pub open spec fn temperature_at(idx: int) -> Temperature {
    if idx == 0 {
        Temperature::Deterministic
    } else if idx == 1 {
        Temperature::Strict
    } else if idx == 2 {
        Temperature::Explaining
    } else if idx == 3 {
        Temperature::Converastion
    } else if idx == 4 {
        Temperature::Creative
    } else {
        Temperature::Explaining
    }
}

/// The sampling temperature a setting stands for, in hundredths: the
/// settings run from the most deterministic to the most creative.
pub open spec fn sampling_hundredths(t: Temperature) -> int {
    match t {
        Temperature::Deterministic => 0,
        Temperature::Strict => 20,
        Temperature::Explaining => 65,
        Temperature::Converastion => 100,
        Temperature::Creative => 200,
    }
}

/// The temperature is at some index of the offered list.
pub open spec fn is_offered(t: Temperature) -> bool {
    exists|i: int| 0 <= i < 5 && #[trigger] temperature_at(i) == t
}

/// The offered list holds every temperature exactly once, from the coolest
/// to the hottest; an index past its end picks the default.
pub proof fn lemma_offered_temperatures()
    ensures
        forall|i: int, j: int|
            0 <= i < j < 5 ==> sampling_hundredths(#[trigger] temperature_at(i))
                < sampling_hundredths(#[trigger] temperature_at(j)),
        forall|t: Temperature| #[trigger] is_offered(t),
        forall|i: int| (i < 0 || i >= 5) ==> #[trigger] temperature_at(i) == Temperature::Explaining,
{
    assert forall|t: Temperature| #[trigger] is_offered(t) by {
        match t {
            Temperature::Deterministic => assert(temperature_at(0) == t),
            Temperature::Strict => assert(temperature_at(1) == t),
            Temperature::Explaining => assert(temperature_at(2) == t),
            Temperature::Converastion => assert(temperature_at(3) == t),
            Temperature::Creative => assert(temperature_at(4) == t),
        }
    }
}

/// Each temperature is shown under a name of its own: no two share one.
pub proof fn lemma_temperature_names_distinct()
    ensures
        forall|a: Temperature, b: Temperature|
            #[trigger] temperature_name(a) == #[trigger] temperature_name(b) ==> a == b,
        temperature_name(Temperature::Strict) == "Strict"@,
{
    reveal_strlit("Deterministic");
    reveal_strlit("Strict");
    reveal_strlit("Explaining");
    reveal_strlit("Conversation");
    reveal_strlit("Creative");
    assert("Deterministic"@.len() == 13);
    assert("Strict"@.len() == 6);
    assert("Explaining"@.len() == 10);
    assert("Conversation"@.len() == 12);
    assert("Creative"@.len() == 8);
    assert forall|a: Temperature, b: Temperature|
        #[trigger] temperature_name(a) == #[trigger] temperature_name(b) implies a == b by {
        if a != b {
            assert(temperature_name(a).len() != temperature_name(b).len());
        }
    }
}

impl Temperature {
    /// The default temperature.
    pub open spec fn default_value() -> Temperature {
        Temperature::Explaining
    }

    /// The temperature picked at `idx` of the offered list, or the default
    /// one when the index names none.
    pub fn choice(idx: usize) -> (r: Temperature)
        ensures
            r == temperature_at(idx as int),
    {
        match idx {
            0 => Temperature::Deterministic,
            1 => Temperature::Strict,
            2 => Temperature::Explaining,
            3 => Temperature::Converastion,
            4 => Temperature::Creative,
            _ => Temperature::default(),
        }
    }

    /// The temperature's name, as it is displayed.
    pub fn to_string(&self) -> (r: String)
        ensures
            r@ == temperature_name(*self),
    {
        match self {
            Temperature::Deterministic => String::from_str("Deterministic"),
            Temperature::Strict => String::from_str("Strict"),
            Temperature::Explaining => String::from_str("Explaining"),
            Temperature::Converastion => String::from_str("Conversation"),
            Temperature::Creative => String::from_str("Creative"),
        }
    }
}

} // verus!
