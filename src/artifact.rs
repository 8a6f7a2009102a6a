use vstd::prelude::*;

verus! {

/// The character for a decimal digit.
pub open spec fn digit_char(d: nat) -> char {
    if d == 0 {
        '0'
    } else if d == 1 {
        '1'
    } else if d == 2 {
        '2'
    } else if d == 3 {
        '3'
    } else if d == 4 {
        '4'
    } else if d == 5 {
        '5'
    } else if d == 6 {
        '6'
    } else if d == 7 {
        '7'
    } else if d == 8 {
        '8'
    } else {
        '9'
    }
}

/// The decimal numeral of `n`, most significant digit first, no leading zeros.
pub open spec fn decimal(n: nat) -> Seq<char>
    decreases n,
{
    if n < 10 {
        seq![digit_char(n)]
    } else {
        decimal(n / 10).push(digit_char(n % 10))
    }
}

fn digit_str(d: usize) -> (r: &'static str)
    requires
        d < 10,
    ensures
        r@ == seq![digit_char(d as nat)],
{
    proof {
        reveal_strlit("0");
        reveal_strlit("1");
        reveal_strlit("2");
        reveal_strlit("3");
        reveal_strlit("4");
        reveal_strlit("5");
        reveal_strlit("6");
        reveal_strlit("7");
        reveal_strlit("8");
        reveal_strlit("9");
    }
    if d == 0 {
        "0"
    } else if d == 1 {
        "1"
    } else if d == 2 {
        "2"
    } else if d == 3 {
        "3"
    } else if d == 4 {
        "4"
    } else if d == 5 {
        "5"
    } else if d == 6 {
        "6"
    } else if d == 7 {
        "7"
    } else if d == 8 {
        "8"
    } else {
        "9"
    }
}

/// Appends the decimal numeral of `n` to `s`.
fn push_decimal(s: &mut String, n: usize)
    ensures
        final(s)@ == old(s)@ + decimal(n as nat),
    decreases n,
{
    if n >= 10 {
        push_decimal(s, n / 10);
    }
    s.append(digit_str(n % 10));
    proof {
        if n >= 10 {
            assert(old(s)@ + decimal(n as nat) =~= old(s)@ + decimal((n / 10) as nat) + seq![
                digit_char((n % 10) as nat),
            ]);
        } else {
            assert(decimal(n as nat) == seq![digit_char(n as nat)]);
        }
    }
}

/// Where the build artifacts of the reloadable module lie.
///
/// Generation `g` of the artifact is at `prefix`, the decimal numeral of `g`,
/// then `ext`; the unversioned build is at `canonical`.
pub struct ArtifactLocator {
    pub prefix: String,
    pub ext: String,
    pub canonical: String,
}

/// What the probe found: the last generation of the unbroken run that starts
/// at zero, if generation zero exists, and the path to load.
pub struct Artifact {
    pub generation: Option<usize>,
    pub path: String,
}

/// What the probe owes, given what `present` answered for each generation: no
/// generation when generation zero was reported missing; else generation `k`,
/// every generation up to `k` reported present and the next one reported
/// missing (or there is no next one).
pub open spec fn probe_outcome<F: Fn(usize) -> bool>(present: F, found: Option<usize>) -> bool {
    match found {
        None => present.ensures((0usize,), false),
        Some(k) => {
            &&& forall|g: usize| g <= k ==> #[trigger] present.ensures((g,), true)
            &&& k < usize::MAX ==> present.ensures(((k + 1) as usize,), false)
        },
    }
}

impl ArtifactLocator {
    /// The path of generation `g`.
    pub open spec fn generation_path_spec(&self, g: nat) -> Seq<char> {
        self.prefix@ + decimal(g) + self.ext@
    }

    /// The path that a probe result selects.
    pub open spec fn selected_path(&self, found: Option<usize>) -> Seq<char> {
        match found {
            None => self.canonical@,
            Some(k) => self.generation_path_spec(k as nat),
        }
    }

    pub fn new(prefix: String, ext: String, canonical: String) -> (r: ArtifactLocator)
        ensures
            r.prefix@ == prefix@,
            r.ext@ == ext@,
            r.canonical@ == canonical@,
    {
        ArtifactLocator { prefix, ext, canonical }
    }

    /// The path of generation `g`.
    pub fn generation_path(&self, g: usize) -> (r: String)
        ensures
            r@ == self.generation_path_spec(g as nat),
    {
        let mut s = self.prefix.clone();
        push_decimal(&mut s, g);
        s.append(self.ext.as_str());
        s
    }

    /// The path that a probe result selects.
    pub fn path_for(&self, found: Option<usize>) -> (r: String)
        ensures
            r@ == self.selected_path(found),
    {
        match found {
            None => self.canonical.clone(),
            Some(k) => self.generation_path(k),
        }
    }

    /// Finds the artifact to load.
    ///
    /// `present(g)` tells whether generation `g` exists on disk. Generations
    /// are probed in order from zero; the first missing one ends the run, and
    /// the last present one before it is selected. When generation zero is
    /// missing the canonical path is selected. A gap in the numbering ends
    /// the probe as well, so later generations after a gap are never seen.
    pub fn locate<F: Fn(usize) -> bool>(&self, present: F) -> (r: Artifact)
        requires
            forall|g: usize| present.requires((g,)),
        ensures
            probe_outcome(present, r.generation),
            r.path@ == self.selected_path(r.generation),
    {
        let found = probe(&present);
        let path = self.path_for(found);
        Artifact { generation: found, path }
    }
}

/// With no generation on disk (generation zero is always reported missing),
/// the locator selects the canonical, unversioned path.
pub proof fn lemma_no_generations_selects_canonical<F: Fn(usize) -> bool>(
    loc: &ArtifactLocator,
    present: F,
    found: Option<usize>,
)
    requires
        probe_outcome(present, found),
        forall|b: bool| #[trigger] present.ensures((0usize,), b) ==> !b,
    ensures
        found is None,
        loc.selected_path(found) == loc.canonical@,
{
    if let Some(k) = found {
        assert(present.ensures((0usize,), true));
    }
}

/// With generations `0..=k` on disk and generation `k + 1` missing, the
/// locator selects the path with suffix `k`.
pub proof fn lemma_run_selects_last_generation<F: Fn(usize) -> bool>(
    loc: &ArtifactLocator,
    present: F,
    k: usize,
    found: Option<usize>,
)
    requires
        probe_outcome(present, found),
        forall|g: usize, b: bool| g <= k && #[trigger] present.ensures((g,), b) ==> b,
        k < usize::MAX ==> forall|b: bool| #[trigger] present.ensures(((k + 1) as usize,), b) ==> !b,
    ensures
        found == Some(k),
        loc.selected_path(found) == loc.generation_path_spec(k as nat),
{
    match found {
        None => {
            assert(present.ensures((0usize,), false));
        },
        Some(j) => {
            if j < k {
                assert(present.ensures(((j + 1) as usize,), false));
            } else if j > k {
                assert(present.ensures(((k + 1) as usize,), true));
            }
        },
    }
}

/// The linear probe behind [`ArtifactLocator::locate`].
fn probe<F: Fn(usize) -> bool>(present: &F) -> (r: Option<usize>)
    requires
        forall|g: usize| present.requires((g,)),
    ensures
        probe_outcome(*present, r),
{
    if !present(0) {
        return None;
    }
    let mut last: usize = 0;
    while last < usize::MAX
        invariant
            forall|g: usize| present.requires((g,)),
            forall|g: usize| g <= last ==> #[trigger] present.ensures((g,), true),
        decreases usize::MAX - last,
    {
        let next = last + 1;
        if !present(next) {
            return Some(last);
        }
        assert forall|g: usize| g <= next implies #[trigger] present.ensures((g,), true) by {
            if g == next {
            }
        }
        last = next;
    }
    Some(last)
}

} // verus!
