//! Package managers and AUR helpers, and how they are detected.

use vstd::prelude::*;

use crate::host::{which_opt, HostError, Platform};

verus! {

/// A system package manager.
///
/// - Windows: `Chocolatey`, `WinGet`
/// - macOS: `Homebrew`
/// - Linux: `APT`, `DNF`, `Pacman`
#[allow(clippy::upper_case_acronyms)]
#[derive(Debug, Clone, Copy, PartialEq, Eq, Hash, Structural)]
pub enum PackageManager {
    Chocolatey,
    WinGet,
    Homebrew,
    APT,
    DNF,
    Pacman,
}

/// Whether installing with `pm` needs elevated privileges.
pub open spec fn spec_needs_privilege(pm: PackageManager) -> bool {
    match pm {
        PackageManager::Chocolatey | PackageManager::WinGet | PackageManager::Homebrew => false,
        PackageManager::APT | PackageManager::DNF | PackageManager::Pacman => true,
    }
}

/// The key under which a tool's catalog entry names its package for `pm`.
pub open spec fn spec_registry_key(pm: PackageManager) -> Seq<char> {
    match pm {
        PackageManager::Chocolatey => "chocolatey"@,
        PackageManager::WinGet => "winget"@,
        PackageManager::Homebrew => "homebrew"@,
        PackageManager::APT => "apt"@,
        PackageManager::DNF => "dnf"@,
        PackageManager::Pacman => "pacman"@,
    }
}

/// The human-friendly name of `pm`.
pub open spec fn spec_display_name(pm: PackageManager) -> Seq<char> {
    match pm {
        PackageManager::Chocolatey => "Chocolatey"@,
        PackageManager::WinGet => "WinGet"@,
        PackageManager::Homebrew => "Homebrew"@,
        PackageManager::APT => "APT"@,
        PackageManager::DNF => "DNF"@,
        PackageManager::Pacman => "Pacman"@,
    }
}

/// The package managers looked for on `platform`, in order of preference,
/// each with the executable name that is searched for.
pub open spec fn spec_candidates(platform: Platform) -> Seq<(Seq<char>, PackageManager)> {
    match platform {
        Platform::Windows => seq![("choco"@, PackageManager::Chocolatey), ("winget"@, PackageManager::WinGet)],
        Platform::MacOs => seq![("brew"@, PackageManager::Homebrew)],
        Platform::Linux => seq![
            ("apt"@, PackageManager::APT),
            ("dnf"@, PackageManager::DNF),
            ("pacman"@, PackageManager::Pacman),
        ],
        Platform::Other => seq![],
    }
}

/// Whether `pm` is one of the package managers supported on `platform`.
pub open spec fn spec_supported_on(pm: PackageManager, platform: Platform) -> bool {
    exists|i: int| 0 <= i < spec_candidates(platform).len() && #[trigger] spec_candidates(platform)[i].1 == pm
}

impl PackageManager {
    /// Detects the preferred package manager of `platform` together with the
    /// full path to its executable, or `None` when none is installed.
    pub fn detect(platform: Platform) -> (r: Result<Option<(Self, String)>, HostError>)
        ensures
            r matches Ok(Some((pm, _))) ==> spec_supported_on(pm, platform),
            platform == Platform::Other ==> r matches Ok(None),
    {
        match platform {
            Platform::Linux => Self::detect_linux(),
            Platform::MacOs => Self::detect_macos(),
            Platform::Windows => Self::detect_windows(),
            Platform::Other => Ok(None),
        }
    }

    /// Looks for Homebrew.
    pub fn detect_macos() -> (r: Result<Option<(Self, String)>, HostError>)
        ensures
            r matches Ok(Some((pm, _))) ==> spec_supported_on(pm, Platform::MacOs),
    {
        let candidates = [("brew", PackageManager::Homebrew)];
        let r = find_first_match(&candidates);
        proof {
            if let Ok(Some((pm, _))) = r {
                assert(spec_candidates(Platform::MacOs)[0].1 == pm);
            }
        }
        r
    }

    /// Looks for APT, then DNF, then Pacman.
    pub fn detect_linux() -> (r: Result<Option<(Self, String)>, HostError>)
        ensures
            r matches Ok(Some((pm, _))) ==> spec_supported_on(pm, Platform::Linux),
    {
        let candidates = [
            ("apt", PackageManager::APT),
            ("dnf", PackageManager::DNF),
            ("pacman", PackageManager::Pacman),
        ];
        let r = find_first_match(&candidates);
        proof {
            if let Ok(Some((pm, _))) = r {
                let c = spec_candidates(Platform::Linux);
                assert(c[0].1 == PackageManager::APT && c[1].1 == PackageManager::DNF && c[2].1 == PackageManager::Pacman);
            }
        }
        r
    }

    /// Looks for Chocolatey, then WinGet.
    pub fn detect_windows() -> (r: Result<Option<(Self, String)>, HostError>)
        ensures
            r matches Ok(Some((pm, _))) ==> spec_supported_on(pm, Platform::Windows),
    {
        let candidates = [("choco", PackageManager::Chocolatey), ("winget", PackageManager::WinGet)];
        let r = find_first_match(&candidates);
        proof {
            if let Ok(Some((pm, _))) = r {
                let c = spec_candidates(Platform::Windows);
                assert(c[0].1 == PackageManager::Chocolatey && c[1].1 == PackageManager::WinGet);
            }
        }
        r
    }

    /// A human-friendly name for display.
    pub fn as_display_name(&self) -> (r: &'static str)
        ensures
            r@ == spec_display_name(*self),
    {
        match self {
            Self::Chocolatey => "Chocolatey",
            Self::WinGet => "WinGet",
            Self::Homebrew => "Homebrew",
            Self::APT => "APT",
            Self::DNF => "DNF",
            Self::Pacman => "Pacman",
        }
    }

    /// The key that names this package manager's packages in a catalog entry.
    pub fn as_registry_key(&self) -> (r: &'static str)
        ensures
            r@ == spec_registry_key(*self),
    {
        match self {
            Self::Chocolatey => "chocolatey",
            Self::WinGet => "winget",
            Self::Homebrew => "homebrew",
            Self::APT => "apt",
            Self::DNF => "dnf",
            Self::Pacman => "pacman",
        }
    }

    /// Whether installing packages needs elevated privileges (root or
    /// administrator).
    pub fn needs_privilege(&self) -> (r: bool)
        ensures
            r == spec_needs_privilege(*self),
    {
        match self {
            Self::Chocolatey | Self::WinGet | Self::Homebrew => false,
            Self::APT | Self::DNF | Self::Pacman => true,
        }
    }

    /// Same as [`PackageManager::needs_privilege`].
    pub fn requires_elevation(&self) -> (r: bool)
        ensures
            r == spec_needs_privilege(*self),
    {
        self.needs_privilege()
    }
}

/// An AUR helper: a user-space wrapper around Pacman on Arch Linux.
#[derive(Debug, Clone, Copy, PartialEq, Eq, Hash, Structural)]
pub enum AurHelper {
    Paru,
    Yay,
}

impl AurHelper {
    /// Detects an installed AUR helper (Paru first, then Yay) together with
    /// the full path to its executable.
    pub fn detect() -> (r: Result<Option<(Self, String)>, HostError>)
        ensures
            r matches Ok(Some((helper, _))) ==> helper == AurHelper::Paru || helper == AurHelper::Yay,
    {
        let candidates = [("paru", AurHelper::Paru), ("yay", AurHelper::Yay)];
        find_first_match(&candidates)
    }

    /// AUR helpers run in user space: never needs elevated privileges.
    pub fn needs_privilege(&self) -> (r: bool)
        ensures
            !r,
    {
        false
    }

    /// Same as [`AurHelper::needs_privilege`].
    pub fn requires_elevation(&self) -> (r: bool)
        ensures
            !r,
    {
        false
    }
}

/// The values of `candidates`, in order.
pub open spec fn spec_candidate_values<T>(candidates: Seq<(&str, T)>) -> Seq<T> {
    candidates.map_values(|c: (&str, T)| c.1)
}

/// What searching for `values` gives when the executable searches came out
/// as `lookups`, in order: the first search that does not come back "not
/// found" decides, with its value and path, or with its error.
pub open spec fn spec_first_match<T>(
    values: Seq<T>,
    lookups: Seq<Result<Option<String>, HostError>>,
) -> Result<Option<(T, String)>, HostError>
    decreases lookups.len(),
{
    if lookups.len() == 0 || values.len() == 0 {
        Ok(None)
    } else {
        match lookups[0] {
            Ok(None) => spec_first_match(values.drop_first(), lookups.drop_first()),
            Ok(Some(path)) => Ok(Some((values[0], path))),
            Err(e) => Err(e),
        }
    }
}

/// A value that [`spec_first_match`] picks is one of `values`.
proof fn lemma_first_match_is_candidate<T>(values: Seq<T>, lookups: Seq<Result<Option<String>, HostError>>)
    ensures
        spec_first_match(values, lookups) matches Ok(Some((t, _))) ==> exists|i: int|
            0 <= i < values.len() && #[trigger] values[i] == t,
    decreases lookups.len(),
{
    if lookups.len() > 0 && values.len() > 0 && lookups[0] is Ok && lookups[0]->Ok_0 is None {
        lemma_first_match_is_candidate(values.drop_first(), lookups.drop_first());
        if let Ok(Some((t, _))) = spec_first_match(values, lookups) {
            let i = choose|i: int| 0 <= i < values.drop_first().len() && values.drop_first()[i] == t;
            assert(values[i + 1] == t);
        }
    } else if lookups.len() > 0 && values.len() > 0 {
        if let Ok(Some((t, _))) = spec_first_match(values, lookups) {
            assert(values[0] == t);
        }
    }
}

/// Picks the match of a search over `candidates` from the results of
/// their executable searches, in order: the first result that is not
/// "not found" decides, giving its candidate's value with the path found,
/// or its error; with none, nothing was found.
pub fn select_first_match<T: Copy>(
    candidates: &[(&str, T)],
    lookups: Vec<Result<Option<String>, HostError>>,
) -> (r: Result<Option<(T, String)>, HostError>)
    ensures
        r == spec_first_match(spec_candidate_values(candidates@), lookups@),
{
    let ghost values = spec_candidate_values(candidates@);
    let ghost all = lookups@;
    let mut rest = lookups;
    let mut result: Result<Option<(T, String)>, HostError> = Ok(None);
    let mut done = false;
    let mut i: usize = 0;
    proof {
        assert(values.skip(0) =~= values);
        assert(all.skip(0) =~= all);
    }
    while !done && i < candidates.len() && rest.len() > 0
        invariant
            i <= candidates@.len(),
            i <= all.len(),
            values == spec_candidate_values(candidates@),
            !done ==> rest@ == all.skip(i as int),
            !done ==> spec_first_match(values, all) == spec_first_match(values.skip(i as int), all.skip(i as int)),
            done ==> result == spec_first_match(values, all),
            !done ==> result matches Ok(None),
        decreases candidates@.len() - i + (if done { 0int } else { 1int }),
    {
        let lookup = rest.remove(0);
        proof {
            assert(values.skip(i as int).len() > 0);
            assert(all.skip(i as int).len() > 0);
            assert(all.skip(i as int)[0] == lookup);
            assert(values.skip(i as int)[0] == candidates@[i as int].1);
            assert(values.skip(i as int).drop_first() =~= values.skip(i + 1));
            assert(all.skip(i as int).drop_first() =~= all.skip(i + 1));
            assert(rest@ =~= all.skip(i + 1));
        }
        match lookup {
            Ok(None) => {
                i = i + 1;
            },
            Ok(Some(path)) => {
                result = Ok(Some((candidates[i].1, path)));
                done = true;
            },
            Err(e) => {
                result = Err(e);
                done = true;
            },
        }
    }
    proof {
        if !done {
            assert(values.skip(i as int).len() == 0 || all.skip(i as int).len() == 0);
        }
        assert(result == spec_first_match(values, all));
        assert(all == lookups@);
    }
    result
}

/// Searches the process search path for each candidate's executable in
/// order, stopping at the first one found or at the first failed search,
/// and picks the result with [`select_first_match`].
pub fn find_first_match<T: Copy>(candidates: &[(&str, T)]) -> (r: Result<Option<(T, String)>, HostError>)
    ensures
        r matches Ok(Some((t, _))) ==> exists|i: int| 0 <= i < candidates@.len() && #[trigger] candidates@[i].1 == t,
        candidates@.len() == 0 ==> r matches Ok(None),
{
    let mut lookups: Vec<Result<Option<String>, HostError>> = Vec::new();
    let mut i: usize = 0;
    let mut searching = true;
    while searching && i < candidates.len()
        invariant
            i <= candidates@.len(),
        decreases candidates@.len() - i,
    {
        let (cmd, _) = candidates[i];
        let found = which_opt(cmd);
        searching = matches!(found, Ok(None));
        lookups.push(found);
        i = i + 1;
    }
    let r = select_first_match(candidates, lookups);
    proof {
        let values = spec_candidate_values(candidates@);
        lemma_first_match_is_candidate(values, lookups@);
        if let Ok(Some((t, _))) = r {
            let j = choose|j: int| 0 <= j < values.len() && values[j] == t;
            assert(candidates@[j].1 == t);
        }
    }
    r
}

} // verus!
