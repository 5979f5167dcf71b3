//! Finding the Vulkan SDK: by the variable its installer sets, then among
//! the versions installed at the standard place.

use vstd::prelude::*;

use crate::dependencies::{absent, found, DependencyManager, DependencyStatus, VULKAN_SDK};
use crate::paths::LocalPath;
use crate::text::{opt_text, str_lt, text_before};

verus! {

/// The directory below which the SDK's installer puts each version.
pub const VULKAN_ROOT: &'static str = "C:\\VulkanSDK";

/// The variable that the SDK's installer sets to the installed version's directory.
pub const VULKAN_VARIABLE: &'static str = "VULKAN_SDK";

/// What the installer's variable points to.
#[derive(Debug, Clone)]
pub struct EnvSdk {
    /// The value of the variable.
    pub path: LocalPath,
    /// Whether that location exists.
    pub exists: bool,
    /// The last name of that location, where it has one that is text.
    pub file_name: Option<String>,
}

/// The index of the latest of the first `count` names: the one that no other
/// comes after, the earliest of them where several are equal.
pub open spec fn latest_index(names: Seq<Seq<char>>, count: int) -> int
    decreases count,
{
    if count <= 1 {
        0
    } else {
        let best = latest_index(names, count - 1);
        if text_before(names[best], names[count - 1]) {
            count - 1
        } else {
            best
        }
    }
}

/// The record of the Vulkan SDK: the location that the variable names, where
/// it exists, under the version that its last name gives, or the configured
/// version where it has none; else the latest of the versions installed at
/// the standard place; else not installed. `installed` holds the names of
/// the directories at the standard place.
pub open spec fn vulkan_status(
    configured_version: Seq<char>,
    variable: Option<EnvSdkView>,
    installed: Option<Seq<Seq<char>>>,
) -> crate::dependencies::StatusView {
    match variable {
        Some(EnvSdkView { path, exists: true, file_name }) => found(
            VULKAN_SDK@,
            Some(
                match file_name {
                    Some(name) => name,
                    None => configured_version,
                },
            ),
            path,
        ),
        _ => match installed {
            Some(names) => if names.len() > 0 {
                let version = names[latest_index(names, names.len() as int)];
                found(VULKAN_SDK@, Some(version), seq![VULKAN_ROOT@, version])
            } else {
                absent(VULKAN_SDK@)
            },
            None => absent(VULKAN_SDK@),
        },
    }
}

/// What the variable points to, as plain values.
pub struct EnvSdkView {
    pub path: Seq<Seq<char>>,
    pub exists: bool,
    pub file_name: Option<Seq<char>>,
}

/// What the variable points to, as plain values.
pub open spec fn opt_env_sdk(variable: Option<EnvSdk>) -> Option<EnvSdkView> {
    match variable {
        Some(v) => Some(
            EnvSdkView { path: v.path@, exists: v.exists, file_name: opt_text(v.file_name) },
        ),
        None => None,
    }
}

/// The names as texts.
pub open spec fn opt_names(names: Option<Vec<String>>) -> Option<Seq<Seq<char>>> {
    match names {
        Some(v) => Some(crate::paths::text_views(v@)),
        None => None,
    }
}

impl DependencyManager {
    /// The index of the latest of the names.
    pub fn latest_version(names: &Vec<String>) -> (res: usize)
        requires
            names.len() > 0,
        ensures
            res < names.len(),
            res == latest_index(crate::paths::text_views(names@), names.len() as int),
    {
        let ghost texts = crate::paths::text_views(names@);
        let mut best: usize = 0;
        let mut i: usize = 1;
        while i < names.len()
            invariant
                texts == crate::paths::text_views(names@),
                1 <= i <= names.len(),
                best < i,
                best == latest_index(texts, i as int),
            decreases names.len() - i,
        {
            if str_lt(names[best].as_str(), names[i].as_str()) {
                best = i;
            }
            i = i + 1;
        }
        best
    }

    /// `variable` is what the installer's variable points to, `None` where it
    /// is not set. `installed` holds the names of the directories at the
    /// standard place, `None` where that place does not exist or cannot be
    /// listed.
    pub fn check_vulkan_sdk(
        &self,
        variable: &Option<EnvSdk>,
        installed: &Option<Vec<String>>,
    ) -> (res:
        DependencyStatus)
        ensures
            res@ == vulkan_status(
                self.config().vulkan_version@,
                opt_env_sdk(*variable),
                opt_names(*installed),
            ),
    {
        match variable {
            Some(sdk) => {
                if sdk.exists {
                    let version = match &sdk.file_name {
                        Some(name) => name.clone(),
                        None => self.settings().vulkan_version.clone(),
                    };
                    return Self::present(VULKAN_SDK, Some(version), sdk.path.duplicate());
                }
            },
            None => {},
        }
        match installed {
            Some(names) => {
                if names.len() > 0 {
                    let latest = Self::latest_version(names);
                    let version = names[latest].clone();
                    let path = LocalPath::new(VULKAN_ROOT).join(version.as_str());
                    assert(path@ =~= seq![VULKAN_ROOT@, version@]);
                    return Self::present(VULKAN_SDK, Some(version), path);
                }
            },
            None => {},
        }
        Self::missing(VULKAN_SDK)
    }
}

/// The latest of the names is one of them, and none of them comes after it.
pub proof fn lemma_latest_is_greatest(names: Seq<Seq<char>>, count: int)
    requires
        1 <= count <= names.len(),
    ensures
        0 <= latest_index(names, count) < count,
        forall|k: int|
            0 <= k < count ==> !text_before(names[latest_index(names, count)], #[trigger] names[k]),
    decreases count,
{
    if count > 1 {
        lemma_latest_is_greatest(names, count - 1);
        let best = latest_index(names, count - 1);
        if text_before(names[best], names[count - 1]) {
            crate::text::lemma_text_before_irreflexive(names[count - 1]);
            assert forall|k: int| 0 <= k < count implies !text_before(
                names[count - 1],
                #[trigger] names[k],
            ) by {
                if k < count - 1 && text_before(names[count - 1], names[k]) {
                    crate::text::lemma_text_before_transitive(
                        names[best],
                        names[count - 1],
                        names[k],
                    );
                }
            }
        }
    } else {
        crate::text::lemma_text_before_irreflexive(names[0]);
    }
}

} // verus!
