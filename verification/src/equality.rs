//! Equality of disruption parts, decided on their views.

use vstd::prelude::*;
use crate::model::{DisruptionEffect, DisruptionStation, EffectKind, Product};

verus! {

/// Whether two optional strings are equal.
pub fn option_strings_equal(a: &Option<String>, b: &Option<String>) -> (r: bool)
    ensures
        r == (a.deep_view() == b.deep_view()),
{
    match a {
        Some(x) => match b {
            Some(y) => *x == *y,
            None => false,
        },
        None => b.is_none(),
    }
}

/// Whether two lists of strings are equal.
pub fn strings_equal(a: &Vec<String>, b: &Vec<String>) -> (r: bool)
    ensures
        r == (a.deep_view() == b.deep_view()),
{
    if a.len() != b.len() {
        assert(a.deep_view().len() != b.deep_view().len());
        return false;
    }
    let mut i: usize = 0;
    while i < a.len()
        invariant
            a@.len() == b@.len(),
            i <= a@.len(),
            forall|k: int| 0 <= k < i ==> a.deep_view()[k] == b.deep_view()[k],
        decreases a@.len() - i,
    {
        if a[i] != b[i] {
            assert(a.deep_view()[i as int] != b.deep_view()[i as int]);
            return false;
        }
        i = i + 1;
    }
    assert(a.deep_view() =~= b.deep_view());
    true
}

/// Whether two lists of stations are equal.
pub fn stations_equal(a: &Vec<DisruptionStation>, b: &Vec<DisruptionStation>) -> (r: bool)
    ensures
        r == (a.deep_view() == b.deep_view()),
{
    if a.len() != b.len() {
        assert(a.deep_view().len() != b.deep_view().len());
        return false;
    }
    let mut i: usize = 0;
    while i < a.len()
        invariant
            a@.len() == b@.len(),
            i <= a@.len(),
            forall|k: int| 0 <= k < i ==> a.deep_view()[k] == b.deep_view()[k],
        decreases a@.len() - i,
    {
        if a[i].name != b[i].name || a[i].ril100 != b[i].ril100 {
            assert(a.deep_view()[i as int] != b.deep_view()[i as int]);
            return false;
        }
        i = i + 1;
    }
    assert(a.deep_view() =~= b.deep_view());
    true
}

/// Whether two effect kinds are equal.
pub fn effect_kinds_equal(a: &EffectKind, b: &EffectKind) -> (r: bool)
    ensures
        r == (a@ == b@),
{
    match a {
        EffectKind::Diversion => match b {
            EffectKind::Diversion => true,
            _ => false,
        },
        EffectKind::Cancel => match b {
            EffectKind::Cancel => true,
            _ => false,
        },
        EffectKind::PartialCancel => match b {
            EffectKind::PartialCancel => true,
            _ => false,
        },
        EffectKind::LongerTravelTime => match b {
            EffectKind::LongerTravelTime => true,
            _ => false,
        },
        EffectKind::OppositeTrackZs6 => match b {
            EffectKind::OppositeTrackZs6 => true,
            _ => false,
        },
        EffectKind::OppositeTrackZs8 => match b {
            EffectKind::OppositeTrackZs8 => true,
            _ => false,
        },
        EffectKind::HoldingBack => match b {
            EffectKind::HoldingBack => true,
            _ => false,
        },
        EffectKind::TotalClosure => match b {
            EffectKind::TotalClosure => true,
            _ => false,
        },
        EffectKind::DeviationFromTimetable => match b {
            EffectKind::DeviationFromTimetable => true,
            _ => false,
        },
        EffectKind::WithoutDeviationFromRoute => match b {
            EffectKind::WithoutDeviationFromRoute => true,
            _ => false,
        },
        EffectKind::DiversionUnderSimplifiedConditions => match b {
            EffectKind::DiversionUnderSimplifiedConditions => true,
            _ => false,
        },
        EffectKind::Other => match b {
            EffectKind::Other => true,
            _ => false,
        },
        EffectKind::Unknown(x) => match b {
            EffectKind::Unknown(y) => *x == *y,
            _ => false,
        },
    }
}

/// Whether two lists of kinds of traffic are equal.
pub fn products_equal(a: &Vec<Product>, b: &Vec<Product>) -> (r: bool)
    ensures
        r == (a@ == b@),
{
    if a.len() != b.len() {
        assert(a.deep_view().len() != b.deep_view().len());
        return false;
    }
    let mut i: usize = 0;
    while i < a.len()
        invariant
            a@.len() == b@.len(),
            i <= a@.len(),
            forall|k: int| 0 <= k < i ==> a@[k] == b@[k],
        decreases a@.len() - i,
    {
        if a[i] != b[i] {
            return false;
        }
        i = i + 1;
    }
    assert(a@ =~= b@);
    true
}

/// Whether two lists of effects are equal.
pub fn effects_equal(a: &Vec<DisruptionEffect>, b: &Vec<DisruptionEffect>) -> (r: bool)
    ensures
        r == (a.deep_view() == b.deep_view()),
{
    if a.len() != b.len() {
        assert(a.deep_view().len() != b.deep_view().len());
        return false;
    }
    let mut i: usize = 0;
    while i < a.len()
        invariant
            a@.len() == b@.len(),
            i <= a@.len(),
            forall|k: int| 0 <= k < i ==> a.deep_view()[k] == b.deep_view()[k],
        decreases a@.len() - i,
    {
        if !effect_kinds_equal(&a[i].effect, &b[i].effect) || !products_equal(
            &a[i].product,
            &b[i].product,
        ) {
            assert(a.deep_view()[i as int] != b.deep_view()[i as int]);
            return false;
        }
        i = i + 1;
    }
    assert(a.deep_view() =~= b.deep_view());
    true
}

} // verus!
