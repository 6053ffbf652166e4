//! The worker launch configuration from the application config's `asr.browser.chrome_launch`
//! section: missing lists take the built-in defaults, then the configuration is finalized
//! and the stability overrides apply.  Reading the JSON is the caller's part; this takes
//! the section's values as read.
use vstd::prelude::*;

use crate::chrome_flags::{
    anti_throttle_flags_spec, default_anti_throttle_args, default_disabled_chrome_features,
    disabled_features_spec, disk_bloat_features_spec, disk_bloat_flags_spec, finalize_chrome_launch_config,
    finalized_features, finalized_launch_args, forbidden_flags_spec, without_prefixed, BrowserChromeLaunchConfig,
};
use crate::launch_stability::{apply_launch_stability_overrides, stable_extra_args, stable_high_priority};
use crate::text::{trim, trim_str, views};

verus! {

/// The `chrome_launch` section as read: each list holds the text of every array element
/// (`None` for an element that is not a string); `None` for a missing or non-array value.
pub struct ChromeLaunchSection {
    pub launch_args: Option<Vec<Option<String>>>,
    pub disabled_features: Option<Vec<Option<String>>>,
    pub extra_args: Option<Vec<Option<String>>>,
    pub use_high_priority: Option<bool>,
    pub stability_profile: Option<bool>,
}

pub open spec fn opt_views(v: Seq<Option<String>>) -> Seq<Option<Seq<char>>> {
    v.map_values(|o: Option<String>| match o {
        Some(s) => Some(s@),
        None => None,
    })
}

/// The text entries of a list, trimmed, blank ones dropped, in order.
pub open spec fn cleaned(items: Seq<Option<Seq<char>>>) -> Seq<Seq<char>>
    decreases items.len(),
{
    if items.len() == 0 {
        Seq::empty()
    } else {
        let rest = cleaned(items.drop_last());
        match items.last() {
            Some(s) => if trim(s).len() > 0 {
                rest.push(trim(s))
            } else {
                rest
            },
            None => rest,
        }
    }
}

/// A configured string list: `None` when the value is missing or leaves no entry.
pub open spec fn string_list_spec(items: Option<Seq<Option<Seq<char>>>>) -> Option<Seq<Seq<char>>> {
    match items {
        Some(v) => if cleaned(v).len() > 0 {
            Some(cleaned(v))
        } else {
            None
        },
        None => None,
    }
}

pub open spec fn opt_list_views(o: Option<Vec<Option<String>>>) -> Option<Seq<Option<Seq<char>>>> {
    match o {
        Some(v) => Some(opt_views(v@)),
        None => None,
    }
}

pub fn string_list(items: &Option<Vec<Option<String>>>) -> (r: Option<Vec<String>>)
    ensures
        match r {
            Some(v) => string_list_spec(opt_list_views(*items)) == Some(views(v@)),
            None => string_list_spec(opt_list_views(*items)) is None,
        },
{
    match items {
        Some(v) => {
            let mut out: Vec<String> = Vec::new();
            let mut i: usize = 0;
            while i < v.len()
                invariant
                    i <= v.len(),
                    views(out@) == cleaned(opt_views(v@).take(i as int)),
                decreases v.len() - i,
            {
                let ghost prev = views(out@);
                assert(opt_views(v@).take(i + 1).drop_last() =~= opt_views(v@).take(i as int));
                match &v[i] {
                    Some(s) => {
                        assert(opt_views(v@).take(i + 1).last() == Some(s@));
                        let t = trim_str(s.as_str());
                        if !t.as_str().is_empty() {
                            out.push(t);
                            assert(views(out@) =~= prev.push(trim(s@)));
                        }
                    },
                    None => {
                        assert(opt_views(v@).take(i + 1).last() is None);
                    },
                }
                i = i + 1;
            }
            assert(opt_views(v@).take(v.len() as int) =~= opt_views(v@));
            if out.len() == 0 {
                None
            } else {
                Some(out)
            }
        },
        None => None,
    }
}

/// What the worker is launched with: `(launch_args, disabled_features, extra_args,
/// use_high_priority)`.
pub open spec fn launch_config_spec(
    section: Option<ChromeLaunchSection>,
    env_stability: Option<bool>,
    env_high_priority: Option<bool>,
    env_disable_gpu: Option<bool>,
) -> (Seq<Seq<char>>, Seq<Seq<char>>, Seq<Seq<char>>, bool) {
    match section {
        None => (
            anti_throttle_flags_spec() + disk_bloat_flags_spec(),
            disabled_features_spec() + disk_bloat_features_spec(),
            Seq::empty(),
            true,
        ),
        Some(sec) => {
            let la = match string_list_spec(opt_list_views(sec.launch_args)) {
                Some(v) => v,
                None => anti_throttle_flags_spec() + disk_bloat_flags_spec(),
            };
            let df = match string_list_spec(opt_list_views(sec.disabled_features)) {
                Some(v) => v,
                None => disabled_features_spec() + disk_bloat_features_spec(),
            };
            let ex = match string_list_spec(opt_list_views(sec.extra_args)) {
                Some(v) => v,
                None => Seq::empty(),
            };
            let hp = match sec.use_high_priority {
                Some(b) => b,
                None => true,
            };
            let stability = match sec.stability_profile {
                Some(b) => b,
                None => false,
            } || env_stability == Some(true);
            (
                finalized_launch_args(la),
                finalized_features(df),
                stable_extra_args(without_prefixed(ex, forbidden_flags_spec()), stability, env_disable_gpu),
                stable_high_priority(hp, stability, env_high_priority),
            )
        },
    }
}

/// `asr.browser.chrome_launch` as the worker launch configuration.  `section` is `None`
/// when `asr.browser` or its `chrome_launch` object is missing; then the defaults stand
/// as they are.  Otherwise each list missing or empty takes its default, the
/// configuration is finalized, and the stability overrides apply (the `env_*` values are
/// the stability switches as read from the environment).
pub fn chrome_launch_from_config(
    section: Option<ChromeLaunchSection>,
    env_stability: Option<bool>,
    env_high_priority: Option<bool>,
    env_disable_gpu: Option<bool>,
) -> (r: BrowserChromeLaunchConfig)
    ensures
        launch_config_spec(section, env_stability, env_high_priority, env_disable_gpu) == (
            views(r.launch_args@),
            views(r.disabled_features@),
            views(r.extra_args@),
            r.use_high_priority,
        ),
{
    match section {
        None => {
            let d = BrowserChromeLaunchConfig::default();
            assert(views(d.extra_args@) =~= Seq::<Seq<char>>::empty());
            d
        },
        Some(sec) => {
            let launch_args = match string_list(&sec.launch_args) {
                Some(v) => v,
                None => default_anti_throttle_args(),
            };
            let disabled_features = match string_list(&sec.disabled_features) {
                Some(v) => v,
                None => default_disabled_chrome_features(),
            };
            let extra_args = match string_list(&sec.extra_args) {
                Some(v) => v,
                None => {
                    let e: Vec<String> = Vec::new();
                    assert(views(e@) =~= Seq::<Seq<char>>::empty());
                    e
                },
            };
            let use_high_priority = match sec.use_high_priority {
                Some(b) => b,
                None => true,
            };
            let stability_profile = match sec.stability_profile {
                Some(b) => b,
                None => false,
            };
            let mut config = BrowserChromeLaunchConfig { launch_args, disabled_features, extra_args, use_high_priority };
            finalize_chrome_launch_config(&mut config);
            apply_launch_stability_overrides(
                &mut config,
                stability_profile,
                env_stability,
                env_high_priority,
                env_disable_gpu,
            );
            config
        },
    }
}

} // verus!
