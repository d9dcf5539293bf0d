//! Features and internal versions that go into the hash of a configuration.

use crate::config::{ResolvedConfig, ResolvedFeature};
use crate::docker::FeatureLockHashEntry;
use crate::error::UpError;
use crate::hash_input::ConfigHashInput;
use crate::paths::{has_parent, path_has_parent};
use crate::services::{FeatureLock, FeatureReference, PlanServices};
use crate::text_map::inserted;
use crate::types::Workspace;
use vstd::prelude::*;
use vstd::string::*;

verus! {

/// The version of the script that runs entrypoints of Features.
pub const FEATURE_ENTRYPOINT_SHIM_HASH_VERSION: &'static str = "3";

/// The version of the layer that installs Features.
pub const FEATURE_LAYER_HASH_VERSION: &'static str = "2";

/// Whether references were read from Features, one for one.
pub open spec fn reads_references<S: PlanServices>(
    services: &S,
    devcontainer_file: &String,
    features: Seq<ResolvedFeature>,
    references: Seq<FeatureReference>,
) -> bool {
    &&& features.len() == references.len()
    &&& forall|i: int|
        0 <= i < features.len() ==> call_ensures(
            S::parse_feature_ref,
            (services, &(#[trigger] features[i]).id, devcontainer_file),
            Ok::<FeatureReference, UpError>(references[i]),
        )
}

/// Whether digests were looked up for references, one for one; only Features
/// of a registry are locked.
pub open spec fn finds_digests<S: PlanServices>(
    services: &S,
    lock: FeatureLock,
    references: Seq<FeatureReference>,
    digests: Seq<Option<String>>,
) -> bool {
    &&& references.len() == digests.len()
    &&& forall|i: int|
        0 <= i < references.len() ==> if (#[trigger] references[i]).from_registry {
            call_ensures(S::locked_digest, (services, &references[i], &lock), digests[i])
        } else {
            digests[i] is None
        }
}

/// The references that have a digest, with it.
pub open spec fn locked_entries(
    references: Seq<FeatureReference>,
    digests: Seq<Option<String>>,
) -> Seq<FeatureLockHashEntry>
    decreases references.len(),
{
    if references.len() == 0 {
        Seq::empty()
    } else {
        let before = locked_entries(references.drop_last(), digests.drop_last());
        match digests.last() {
            Some(digest) => before.push(
                FeatureLockHashEntry { feature_id: references.last().canonical_id, digest },
            ),
            None => before,
        }
    }
}

/// How collecting the digests of Features ends, once the lock file was read.
pub open spec fn ends_with_lock<S: PlanServices>(
    services: &S,
    references: Seq<FeatureReference>,
    lock: Result<FeatureLock, UpError>,
    outcome: Result<Vec<FeatureLockHashEntry>, UpError>,
) -> bool {
    match lock {
        Err(error) => outcome == Err::<Vec<FeatureLockHashEntry>, UpError>(error),
        Ok(lock) => exists|digests: Seq<Option<String>>|
            {
                &&& #[trigger] finds_digests(services, lock, references, digests)
                &&& outcome is Ok
                &&& outcome->Ok_0@ == locked_entries(references, digests)
            },
    }
}

/// Whether an error tells that a Feature could not be read, the ones before
/// it having been.
pub open spec fn fails_on_feature<S: PlanServices>(
    services: &S,
    devcontainer_file: &String,
    features: Seq<ResolvedFeature>,
    position: int,
    error: UpError,
) -> bool {
    &&& 0 <= position < features.len()
    &&& exists|references: Seq<FeatureReference>|
        reads_references(services, devcontainer_file, features.take(position), references)
    &&& exists|cause: UpError| #[trigger]
        call_ensures(
            S::parse_feature_ref,
            (services, &features[position].id, devcontainer_file),
            Err::<FeatureReference, UpError>(cause),
        ) && error@ == seq!["Failed to parse Feature ref: "@ + features[position].id@] + cause@
}

/// How collecting the digests of Features ends.
pub open spec fn collects_locks<S: PlanServices>(
    services: &S,
    workspace: &Workspace,
    devcontainer_file: &String,
    features: Seq<ResolvedFeature>,
    update_features: bool,
    outcome: Result<Vec<FeatureLockHashEntry>, UpError>,
) -> bool {
    if features.len() == 0 {
        outcome is Ok && outcome->Ok_0@.len() == 0
    } else if !has_parent(devcontainer_file@) {
        outcome matches Err(error) && error@ == seq![
            "Failed to resolve devcontainer directory for "@ + devcontainer_file@,
        ]
    } else {
        ||| outcome is Err && exists|position: int| #[trigger]
            fails_on_feature(services, devcontainer_file, features, position, outcome->Err_0)
        ||| exists|references: Seq<FeatureReference>|
            {
                &&& #[trigger] reads_references(services, devcontainer_file, features, references)
                &&& if update_features {
                    outcome is Ok && outcome->Ok_0@.len() == 0
                } else {
                    exists|lock: Result<FeatureLock, UpError>| #[trigger]
                        call_ensures(S::read_feature_lock, (services, workspace), lock)
                            && ends_with_lock(services, references, lock, outcome)
                }
            }
    }
}

/// The digests of the locked Features of a configuration, in the order of the
/// Features. None where the Features are fetched anew.
pub fn feature_lock_hash_inputs<S: PlanServices>(
    services: &S,
    workspace: &Workspace,
    devcontainer_file: &String,
    config: &ResolvedConfig,
    update_features: bool,
) -> (res: Result<Vec<FeatureLockHashEntry>, UpError>)
    ensures
        collects_locks(
            services,
            workspace,
            devcontainer_file,
            config.features@,
            update_features,
            res,
        ),
{
    let features = &config.features;
    let mut entries: Vec<FeatureLockHashEntry> = Vec::new();
    if features.len() == 0 {
        return Ok(entries);
    }
    if !path_has_parent(devcontainer_file.as_str()) {
        let mut message = "Failed to resolve devcontainer directory for ".to_owned();
        message.append(devcontainer_file.as_str());
        return Err(UpError::new(message));
    }
    let mut references: Vec<FeatureReference> = Vec::new();
    let mut i: usize = 0;
    while i < features.len()
        invariant
            i <= features@.len(),
            features@ == config.features@,
            features@.len() > 0,
            has_parent(devcontainer_file@),
            reads_references(services, devcontainer_file, features@.take(i as int), references@),
        decreases features@.len() - i,
    {
        match services.parse_feature_ref(&features[i].id, devcontainer_file) {
            Ok(reference) => {
                let ghost before = references@;
                references.push(reference);
                assert forall|j: int| 0 <= j < features@.take(i as int + 1).len() implies call_ensures(
                    S::parse_feature_ref,
                    (services, &(#[trigger] features@.take(i as int + 1)[j]).id, devcontainer_file),
                    Ok::<FeatureReference, UpError>(references@[j]),
                ) by {
                    if j < i {
                        assert(features@.take(i as int)[j] == features@[j]);
                        assert(references@[j] == before[j]);
                    }
                }
            },
            Err(cause) => {
                let mut message = "Failed to parse Feature ref: ".to_owned();
                message.append(features[i].id.as_str());
                let error = cause.context(message.as_str());
                let failure: Result<Vec<FeatureLockHashEntry>, UpError> = Err(error);
                assert(fails_on_feature(
                    services,
                    devcontainer_file,
                    config.features@,
                    i as int,
                    failure->Err_0,
                ));
                return failure;
            },
        }
        i = i + 1;
    }
    assert(features@.take(features@.len() as int) =~= features@);
    assert(reads_references(services, devcontainer_file, config.features@, references@));
    if update_features {
        return Ok(entries);
    }
    let lock = match services.read_feature_lock(workspace) {
        Ok(lock) => lock,
        Err(error) => {
            return Err(error);
        },
    };
    let ghost mut digests: Seq<Option<String>> = Seq::empty();
    let mut k: usize = 0;
    while k < references.len()
        invariant
            k <= references@.len(),
            finds_digests(services, lock, references@.take(k as int), digests),
            entries@ == locked_entries(references@.take(k as int), digests),
        decreases references@.len() - k,
    {
        let digest = if references[k].from_registry {
            services.locked_digest(&references[k], &lock)
        } else {
            None
        };
        proof {
            let before = digests;
            digests = digests.push(digest);
            assert(references@.take(k as int + 1).drop_last() =~= references@.take(k as int));
            assert(digests.drop_last() =~= before);
            assert forall|j: int| 0 <= j < references@.take(k as int + 1).len() implies if (
            #[trigger] references@.take(k as int + 1)[j]).from_registry {
                call_ensures(
                    S::locked_digest,
                    (services, &references@.take(k as int + 1)[j], &lock),
                    digests[j],
                )
            } else {
                digests[j] is None
            } by {
                if j < k {
                    assert(references@.take(k as int)[j] == references@[j]);
                    assert(digests[j] == before[j]);
                }
            }
        }
        if let Some(digest) = digest {
            entries.push(
                FeatureLockHashEntry { feature_id: references[k].canonical_id.clone(), digest },
            );
        }
        k = k + 1;
    }
    assert(references@.take(references@.len() as int) =~= references@);
    Ok(entries)
}

/// The internal versions that go into the hash of a configuration.
pub open spec fn with_internal_versions(
    versions: Seq<(Seq<char>, String)>,
    config: ResolvedConfig,
    layer: String,
    shim: String,
) -> Seq<(Seq<char>, String)> {
    let versions = if config.features@.len() > 0 {
        inserted(versions, "feature_layer"@, layer)
    } else {
        versions
    };
    if config.devcontainer.entrypoints@.len() > 0 {
        inserted(versions, "feature_entrypoint_shim"@, shim)
    } else {
        versions
    }
}

/// Adds the versions of what the tool puts into an image, where it does.
pub fn add_internal_hash_versions(input: &mut ConfigHashInput<'_>, config: &ResolvedConfig)
    ensures
        exists|layer: String, shim: String|
            {
                &&& layer@ == "2"@
                &&& shim@ == "3"@
                &&& final(input).internal_versions@ == #[trigger] with_internal_versions(
                    old(input).internal_versions@,
                    *config,
                    layer,
                    shim,
                )
            },
        *final(input) == (ConfigHashInput {
            internal_versions: final(input).internal_versions,
            ..*old(input)
        }),
{
    let layer = FEATURE_LAYER_HASH_VERSION.to_owned();
    let shim = FEATURE_ENTRYPOINT_SHIM_HASH_VERSION.to_owned();
    let ghost before = input.internal_versions@;
    if config.features.len() > 0 {
        input.internal_versions.insert("feature_layer".to_owned(), layer.clone());
    }
    if config.devcontainer.entrypoints.len() > 0 {
        input.internal_versions.insert("feature_entrypoint_shim".to_owned(), shim.clone());
    }
    assert(input.internal_versions@ == with_internal_versions(before, *config, layer, shim));
}

} // verus!
