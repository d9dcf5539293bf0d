//! The variables through which hidden values reach Compose.

use crate::docker::{extend_texts, redactions_of, SensitiveEnvMap, SensitiveEnvValue};
use crate::text::{
    chars_of, decimal, decimal_injective, decimal_not_empty, decimal_text, same_text, views,
};
use crate::text_map::{inserted, keys_of, TextMap};
use crate::types::{ComposeProjectPlan, UpPlan};
use vstd::prelude::*;
use vstd::seq_lib::*;
use vstd::set_lib::*;
use vstd::string::*;

verus! {

/// Whether a character is an ASCII letter or digit.
pub open spec fn is_ascii_alphanumeric(ch: char) -> bool {
    'a' <= ch <= 'z' || 'A' <= ch <= 'Z' || '0' <= ch <= '9'
}

/// A character as it may stand in the name of a variable.
pub open spec fn safe_char(ch: char) -> char {
    if 'a' <= ch <= 'z' {
        ((ch as u32) - 32) as char
    } else if is_ascii_alphanumeric(ch) {
        ch
    } else {
        '_'
    }
}

/// A key as it may stand in the name of a variable.
pub open spec fn safe_name(key: Seq<char>) -> Seq<char> {
    let safe = key.map_values(|ch: char| safe_char(ch));
    if safe.len() == 0 || '0' <= safe[0] <= '9' {
        seq!['_'] + safe
    } else {
        safe
    }
}

/// The name of a variable for a key, where no other key has the same.
pub open spec fn base_placeholder(key: Seq<char>) -> Seq<char> {
    "DECUNE_CONTAINER_ENV_"@ + safe_name(key)
}

/// The name of a variable for a key with a number behind it.
pub open spec fn numbered_placeholder(key: Seq<char>, number: nat) -> Seq<char> {
    base_placeholder(key) + "_"@ + decimal(number)
}

/// Whether a name is the first one for a key that is not used yet: the plain
/// one, or else the one with the smallest number from two on.
pub open spec fn is_placeholder(
    key: Seq<char>,
    used: Seq<Seq<char>>,
    placeholder: Seq<char>,
) -> bool {
    &&& !used.contains(placeholder)
    &&& if used.contains(base_placeholder(key)) {
        exists|number: nat|
            {
                &&& number >= 2
                &&& placeholder == #[trigger] numbered_placeholder(key, number)
                &&& forall|smaller: nat|
                    2 <= smaller < number ==> used.contains(
                        #[trigger] numbered_placeholder(key, smaller),
                    )
            }
    } else {
        placeholder == base_placeholder(key)
    }
}

/// For a key and the names that are used there is one name.
pub proof fn placeholder_is_unique(
    key: Seq<char>,
    used: Seq<Seq<char>>,
    left: Seq<char>,
    right: Seq<char>,
)
    requires
        is_placeholder(key, used, left),
        is_placeholder(key, used, right),
    ensures
        left == right,
{
    if used.contains(base_placeholder(key)) {
        let m = choose|number: nat|
            {
                &&& number >= 2
                &&& left == #[trigger] numbered_placeholder(key, number)
                &&& forall|smaller: nat|
                    2 <= smaller < number ==> used.contains(
                        #[trigger] numbered_placeholder(key, smaller),
                    )
            };
        let n = choose|number: nat|
            {
                &&& number >= 2
                &&& right == #[trigger] numbered_placeholder(key, number)
                &&& forall|smaller: nat|
                    2 <= smaller < number ==> used.contains(
                        #[trigger] numbered_placeholder(key, smaller),
                    )
            };
        if m < n {
            assert(used.contains(numbered_placeholder(key, m)));
        } else if n < m {
            assert(used.contains(numbered_placeholder(key, n)));
        }
    }
}

fn safe_text(key: &str) -> (res: String)
    ensures
        res@ == safe_name(key@),
{
    let chars = chars_of(key);
    let mut safe = String::new();
    if chars.len() == 0 || ('0' <= chars[0] && chars[0] <= '9') {
        safe.push('_');
    }
    let ghost start = safe@;
    let mut i: usize = 0;
    while i < chars.len()
        invariant
            chars@ == key@,
            i <= chars@.len(),
            safe@ == start + key@.map_values(|ch: char| safe_char(ch)).take(i as int),
        decreases chars@.len() - i,
    {
        let ch = chars[i];
        let kept = if 'a' <= ch && ch <= 'z' {
            ((ch as u8) - 32) as char
        } else if ('A' <= ch && ch <= 'Z') || ('0' <= ch && ch <= '9') {
            ch
        } else {
            '_'
        };
        safe.push(kept);
        assert(safe@ =~= start + key@.map_values(|ch: char| safe_char(ch)).take(i as int + 1));
        i = i + 1;
    }
    assert(safe@ =~= safe_name(key@));
    safe
}

/// The plain name and the first numbered ones.
pub open spec fn candidates(key: Seq<char>, count: nat) -> Seq<Seq<char>> {
    Seq::new(
        count,
        |i: int|
            if i == 0 {
                base_placeholder(key)
            } else {
                numbered_placeholder(key, (i + 1) as nat)
            },
    )
}

proof fn candidates_differ(key: Seq<char>, count: nat)
    ensures
        candidates(key, count).no_duplicates(),
{
    let all = candidates(key, count);
    reveal_strlit("_");
    assert forall|i: int, j: int| 0 <= i < j < count implies all[i] != all[j] by {
        decimal_not_empty((j + 1) as nat);
        if i == 0 {
            assert(all[j].len() > all[i].len());
        } else {
            let prefix = base_placeholder(key) + "_"@;
            assert(all[i] =~= prefix + decimal((i + 1) as nat));
            assert(all[j] =~= prefix + decimal((j + 1) as nat));
            if all[i] == all[j] {
                assert(all[i].skip(prefix.len() as int) =~= decimal((i + 1) as nat));
                assert(all[j].skip(prefix.len() as int) =~= decimal((j + 1) as nat));
                decimal_injective((i + 1) as nat, (j + 1) as nat);
            }
        }
    }
}

proof fn used_candidates_are_few(key: Seq<char>, used: Seq<Seq<char>>, count: nat)
    requires
        forall|i: int| 0 <= i < count ==> used.contains(#[trigger] candidates(key, count)[i]),
    ensures
        count <= used.len(),
{
    let all = candidates(key, count);
    candidates_differ(key, count);
    all.unique_seq_to_set();
    used.lemma_cardinality_of_set();
    seq_to_set_is_finite(used);
    assert(all.to_set().subset_of(used.to_set())) by {
        assert forall|name: Seq<char>| all.to_set().contains(name) implies used.to_set().contains(
            name,
        ) by {
            let i = choose|i: int| 0 <= i < all.len() && all[i] == name;
            assert(used.contains(all[i]));
        }
    }
    lemma_len_subset(all.to_set(), used.to_set());
}

fn contains_text(texts: &Vec<String>, text: &str) -> (res: bool)
    ensures
        res == views(texts@).contains(text@),
{
    let mut i: usize = 0;
    while i < texts.len()
        invariant
            i <= texts@.len(),
            forall|j: int| 0 <= j < i ==> (#[trigger] texts@[j])@ != text@,
        decreases texts@.len() - i,
    {
        if same_text(texts[i].as_str(), text) {
            assert(views(texts@)[i as int] == text@);
            return true;
        }
        i = i + 1;
    }
    assert forall|j: int| 0 <= j < views(texts@).len() implies views(texts@)[j] != text@ by {
        assert(texts@[j]@ != text@);
    }
    false
}

/// The name of a variable for a key that no other key was given, which is
/// then used.
pub fn compose_container_env_placeholder(key: &str, used: &mut Vec<String>) -> (res: String)
    ensures
        is_placeholder(key@, views(old(used)@), res@),
        final(used)@ == old(used)@.push(res),
        views(final(used)@) == views(old(used)@).push(res@),
{
    let ghost before = views(used@);
    let mut base = "DECUNE_CONTAINER_ENV_".to_owned();
    base.append(safe_text(key).as_str());
    if !contains_text(used, base.as_str()) {
        used.push(base.clone());
        assert(views(used@) =~= before.push(base@));
        return base;
    }
    let used_count: usize = used.len();
    let mut number: u128 = 2;
    loop
        invariant
            before == views(used@),
            before.len() == used_count,
            used@ == old(used)@,
            base@ == base_placeholder(key@),
            before.contains(base_placeholder(key@)),
            2 <= number <= before.len() + 1,
            forall|smaller: nat|
                2 <= smaller < number ==> before.contains(
                    #[trigger] numbered_placeholder(key@, smaller),
                ),
        decreases before.len() + 2 - number,
    {
        let mut candidate = base.clone();
        candidate.append("_");
        candidate.append(decimal_text(number).as_str());
        assert(candidate@ == numbered_placeholder(key@, number as nat));
        if !contains_text(used, candidate.as_str()) {
            used.push(candidate.clone());
            assert(views(used@) =~= before.push(candidate@));
            return candidate;
        }
        proof {
            let count = number as nat;
            assert forall|i: int| 0 <= i < count implies before.contains(
                #[trigger] candidates(key@, count)[i],
            ) by {
                if i > 0 {
                    assert(before.contains(numbered_placeholder(key@, (i + 1) as nat)));
                }
            }
            used_candidates_are_few(key@, before, count);
        }
        number = number + 1;
    }
}

/// Whether names were given to keys in order.
pub open spec fn are_placeholders(keys: Seq<Seq<char>>, placeholders: Seq<Seq<char>>) -> bool {
    &&& keys.len() == placeholders.len()
    &&& forall|i: int|
        0 <= i < keys.len() ==> is_placeholder(
            #[trigger] keys[i],
            placeholders.take(i),
            placeholders[i],
        )
}

/// Keys in order are given the same names each time.
pub proof fn placeholders_are_unique(
    keys: Seq<Seq<char>>,
    left: Seq<Seq<char>>,
    right: Seq<Seq<char>>,
)
    requires
        are_placeholders(keys, left),
        are_placeholders(keys, right),
    ensures
        left == right,
    decreases keys.len(),
{
    if keys.len() > 0 {
        let last = keys.len() - 1;
        assert forall|i: int| 0 <= i < last implies is_placeholder(
            #[trigger] keys.drop_last()[i],
            left.drop_last().take(i),
            left.drop_last()[i],
        ) by {
            assert(left.drop_last().take(i) =~= left.take(i));
            assert(is_placeholder(keys[i], left.take(i), left[i]));
        }
        assert forall|i: int| 0 <= i < last implies is_placeholder(
            #[trigger] keys.drop_last()[i],
            right.drop_last().take(i),
            right.drop_last()[i],
        ) by {
            assert(right.drop_last().take(i) =~= right.take(i));
            assert(is_placeholder(keys[i], right.take(i), right[i]));
        }
        placeholders_are_unique(keys.drop_last(), left.drop_last(), right.drop_last());
        assert(left.take(last) =~= left.drop_last());
        assert(right.take(last) =~= right.drop_last());
        assert(is_placeholder(keys[last], left.take(last), left[last]));
        assert(is_placeholder(keys[last], right.take(last), right[last]));
        placeholder_is_unique(keys[last], left.take(last), left[last], right[last]);
        assert(left =~= left.drop_last().push(left[last]));
        assert(right =~= right.drop_last().push(right[last]));
    } else {
        assert(left =~= right);
    }
}

/// No two keys are given the same name.
pub proof fn placeholders_differ(keys: Seq<Seq<char>>, placeholders: Seq<Seq<char>>)
    requires
        are_placeholders(keys, placeholders),
    ensures
        placeholders.no_duplicates(),
{
    assert forall|i: int, j: int| 0 <= i < j < placeholders.len() implies placeholders[i]
        != placeholders[j] by {
        assert(is_placeholder(keys[j], placeholders.take(j), placeholders[j]));
        assert(placeholders.take(j)[i] == placeholders[i]);
        if placeholders[i] == placeholders[j] {
            assert(placeholders.take(j).contains(placeholders[j]));
        }
    }
}

/// The hidden values under the names that their keys were given.
pub open spec fn interpolation_entries(
    sensitive: Seq<(Seq<char>, SensitiveEnvValue)>,
    placeholders: Seq<Seq<char>>,
) -> Seq<(Seq<char>, String)>
    decreases sensitive.len(),
{
    if sensitive.len() == 0 {
        Seq::empty()
    } else {
        inserted(
            interpolation_entries(sensitive.drop_last(), placeholders.drop_last()),
            placeholders.last(),
            sensitive.last().1.value,
        )
    }
}

/// Whether an environment hands hidden values to Compose.
pub open spec fn hands_over(
    sensitive: Seq<(Seq<char>, SensitiveEnvValue)>,
    environment: Seq<(Seq<char>, String)>,
) -> bool {
    exists|placeholders: Seq<Seq<char>>|
        {
            &&& #[trigger] are_placeholders(keys_of(sensitive), placeholders)
            &&& environment == interpolation_entries(sensitive, placeholders)
        }
}

/// The environment that hands hidden values to Compose, and the texts to hide
/// in its output.
pub fn compose_interpolation_env(sensitive_env: &SensitiveEnvMap) -> (res: (
    TextMap<String>,
    Vec<String>,
))
    ensures
        hands_over(sensitive_env@, res.0@),
        res.0.wf(),
        views(res.1@) == redactions_of(sensitive_env@),
{
    let mut env: TextMap<String> = TextMap::new();
    let mut redactions: Vec<String> = Vec::new();
    let mut used: Vec<String> = Vec::new();
    let mut i: usize = 0;
    let ghost keys = keys_of(sensitive_env@);
    assert(sensitive_env@.take(0) =~= Seq::empty());
    assert(views(redactions@) =~= redactions_of(sensitive_env@.take(0)));
    assert(are_placeholders(keys.take(0), views(used@)));
    while i < sensitive_env.len()
        invariant
            i <= sensitive_env@.len(),
            keys == keys_of(sensitive_env@),
            env.wf(),
            are_placeholders(keys.take(i as int), views(used@)),
            env@ == interpolation_entries(sensitive_env@.take(i as int), views(used@)),
            views(redactions@) == redactions_of(sensitive_env@.take(i as int)),
        decreases sensitive_env@.len() - i,
    {
        let ghost before = views(used@);
        let key = sensitive_env.key_at(i);
        let value = sensitive_env.value_at(i);
        let placeholder = compose_container_env_placeholder(key.as_str(), &mut used);
        env.insert(placeholder.clone(), value.value.clone());
        extend_texts(&mut redactions, &value.redactions);
        proof {
            let after = views(used@);
            assert(after == before.push(placeholder@));
            assert(after.drop_last() =~= before);
            assert(sensitive_env@.take(i as int + 1).drop_last() =~= sensitive_env@.take(i as int));
            assert forall|j: int| 0 <= j < keys.take(i as int + 1).len() implies is_placeholder(
                #[trigger] keys.take(i as int + 1)[j],
                after.take(j),
                after[j],
            ) by {
                assert(after.take(j) =~= before.take(j));
                if j < i {
                    assert(keys.take(i as int)[j] == keys[j]);
                    assert(is_placeholder(keys[j], before.take(j), before[j]));
                } else {
                    assert(before.take(j) =~= before);
                }
            }
        }
        i = i + 1;
    }
    assert(keys.take(keys.len() as int) =~= keys);
    assert(sensitive_env@.take(sensitive_env@.len() as int) =~= sensitive_env@);
    assert(hands_over(sensitive_env@, env@));
    (env, redactions)
}

/// Hands the hidden values of a plan to Compose.
pub fn attach_compose_interpolation_env_to_plan(plan: &mut UpPlan)
    ensures
        hands_over(
            old(plan).sensitive_container_env@,
            final(plan).compose_interpolation_env@,
        ),
        views(final(plan).compose_interpolation_redactions@) == redactions_of(
            old(plan).sensitive_container_env@,
        ),
        match old(plan).compose_project {
            None => final(plan).compose_project is None,
            Some(project) => {
                let attached = final(plan).compose_project->0;
                &&& final(plan).compose_project is Some
                &&& attached == (ComposeProjectPlan {
                    generated_override_env: attached.generated_override_env,
                    generated_override_redactions: attached.generated_override_redactions,
                    ..project
                })
                &&& attached.generated_override_env@ == final(plan).compose_interpolation_env@
                &&& views(attached.generated_override_redactions@) == redactions_of(
                    old(plan).sensitive_container_env@,
                )
            },
        },
        *final(plan) == (UpPlan {
            compose_interpolation_env: final(plan).compose_interpolation_env,
            compose_interpolation_redactions: final(plan).compose_interpolation_redactions,
            compose_project: final(plan).compose_project,
            ..*old(plan)
        }),
{
    let (env, redactions) = compose_interpolation_env(&plan.sensitive_container_env);
    plan.compose_interpolation_env = env.copied();
    plan.compose_interpolation_redactions = crate::docker::copy_texts(&redactions);
    if let Some(project) = &mut plan.compose_project {
        project.generated_override_env = env;
        project.generated_override_redactions = redactions;
    }
}

} // verus!
