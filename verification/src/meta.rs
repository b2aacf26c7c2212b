//! Packaging metadata and the three-way merge that produces the effective
//! per-target configuration.

use vstd::prelude::*;
use crate::views::opt_str_view;

verus! {

/// A partial packaging configuration: every field optional, absent fields
/// inherit from whatever the override is merged over.
#[derive(Debug, Clone, PartialEq, Eq)]
pub struct PkgOverride {
    pub pkg_url: Option<String>,
    pub pkg_fmt: Option<String>,
    pub bin_dir: Option<String>,
    pub pub_key: Option<String>,
}

/// Mathematical image of a `PkgOverride`.
pub ghost struct PkgOverrideView {
    pub pkg_url: Option<Seq<char>>,
    pub pkg_fmt: Option<Seq<char>>,
    pub bin_dir: Option<Seq<char>>,
    pub pub_key: Option<Seq<char>>,
}

impl View for PkgOverride {
    type V = PkgOverrideView;

    open spec fn view(&self) -> PkgOverrideView {
        PkgOverrideView {
            pkg_url: opt_str_view(self.pkg_url),
            pkg_fmt: opt_str_view(self.pkg_fmt),
            bin_dir: opt_str_view(self.bin_dir),
            pub_key: opt_str_view(self.pub_key),
        }
    }
}

impl PkgOverride {
    /// A copy that the contracts can see through, field by field.
    pub fn duplicate(&self) -> (r: Self)
        ensures
            r@ == self@,
    {
        PkgOverride {
            pkg_url: clone_opt_str(&self.pkg_url),
            pkg_fmt: clone_opt_str(&self.pkg_fmt),
            bin_dir: clone_opt_str(&self.bin_dir),
            pub_key: clone_opt_str(&self.pub_key),
        }
    }

}

/// The packaging metadata of a package: base configuration plus per-target
/// overrides, keyed by target triple.
#[derive(Debug, Clone, PartialEq, Eq)]
pub struct PkgMeta {
    pub pkg_url: Option<String>,
    pub pkg_fmt: Option<String>,
    pub bin_dir: Option<String>,
    pub pub_key: Option<String>,
    pub overrides: Vec<(String, PkgOverride)>,
}

/// Mathematical image of a `PkgMeta`.
pub ghost struct PkgMetaView {
    pub pkg_url: Option<Seq<char>>,
    pub pkg_fmt: Option<Seq<char>>,
    pub bin_dir: Option<Seq<char>>,
    pub pub_key: Option<Seq<char>>,
    pub overrides: Seq<(Seq<char>, PkgOverrideView)>,
}

impl View for PkgMeta {
    type V = PkgMetaView;

    open spec fn view(&self) -> PkgMetaView {
        PkgMetaView {
            pkg_url: opt_str_view(self.pkg_url),
            pkg_fmt: opt_str_view(self.pkg_fmt),
            bin_dir: opt_str_view(self.bin_dir),
            pub_key: opt_str_view(self.pub_key),
            overrides: self.overrides@.map_values(|p: (String, PkgOverride)| (p.0@, p.1@)),
        }
    }
}

/// One field of a merge: a value present in the override replaces the base
/// value, an absent one inherits it.
pub open spec fn merged_field(base: Option<Seq<char>>, over: Option<Seq<char>>) -> Option<
    Seq<char>,
> {
    if over is Some {
        over
    } else {
        base
    }
}

/// The base metadata with an override merged over it, field by field.  The
/// per-target override table is untouched by a merge.
pub open spec fn merged_meta(base: PkgMetaView, over: PkgOverrideView) -> PkgMetaView {
    PkgMetaView {
        pkg_url: merged_field(base.pkg_url, over.pkg_url),
        pkg_fmt: merged_field(base.pkg_fmt, over.pkg_fmt),
        bin_dir: merged_field(base.bin_dir, over.bin_dir),
        pub_key: merged_field(base.pub_key, over.pub_key),
        overrides: base.overrides,
    }
}

/// The override registered for a target triple, if any: first match in the
/// table (keys are unique when the table comes from a parsed manifest, so
/// first match is the match).
pub open spec fn spec_lookup_override(
    table: Seq<(Seq<char>, PkgOverrideView)>,
    target: Seq<char>,
) -> Option<PkgOverrideView>
    decreases table.len(),
{
    if table.len() == 0 {
        None
    } else if table[0].0 == target {
        Some(table[0].1)
    } else {
        spec_lookup_override(table.drop_first(), target)
    }
}

/// The effective metadata for one target: strip the override table from the
/// base, merge the target's own override over it if one is registered, then
/// merge the command-line override on top.  Later merges win field by field,
/// so command-line intent always beats per-target packaging intent, which
/// beats the defaults.
pub open spec fn spec_target_meta(
    base: PkgMetaView,
    target: Seq<char>,
    cli: PkgOverrideView,
) -> PkgMetaView {
    let stripped = PkgMetaView {
        pkg_url: base.pkg_url,
        pkg_fmt: base.pkg_fmt,
        bin_dir: base.bin_dir,
        pub_key: base.pub_key,
        overrides: Seq::empty(),
    };
    let with_target = match spec_lookup_override(base.overrides, target) {
        Some(o) => merged_meta(stripped, o),
        None => stripped,
    };
    merged_meta(with_target, cli)
}

fn clone_opt_str(o: &Option<String>) -> (r: Option<String>)
    ensures
        opt_str_view(r) == opt_str_view(*o),
{
    match o {
        Some(s) => Some(s.clone()),
        None => None,
    }
}

impl PkgMeta {
    /// A metadata block with nothing set, as when the manifest carries no
    /// packaging metadata at all.
    pub fn default_meta() -> (r: Self)
        ensures
            r@.pkg_url is None,
            r@.pkg_fmt is None,
            r@.bin_dir is None,
            r@.pub_key is None,
            r@.overrides.len() == 0,
    {
        PkgMeta {
            pkg_url: None,
            pkg_fmt: None,
            bin_dir: None,
            pub_key: None,
            overrides: Vec::new(),
        }
    }

    /// A copy that the contracts can see through, override table included.
    pub fn duplicate(&self) -> (r: Self)
        ensures
            r@ == self@,
    {
        let mut ovs: Vec<(String, PkgOverride)> = Vec::new();
        let n = self.overrides.len();
        let mut i: usize = 0;
        while i < n
            invariant
                n == self.overrides@.len(),
                0 <= i <= n,
                ovs@.len() == i,
                forall|k: int|
                    0 <= k < i ==> ((#[trigger] ovs@[k]).0@, ovs@[k].1@) == self@.overrides[k],
            decreases n - i,
        {
            ovs.push((self.overrides[i].0.clone(), self.overrides[i].1.duplicate()));
            i = i + 1;
        }
        let r = PkgMeta {
            pkg_url: clone_opt_str(&self.pkg_url),
            pkg_fmt: clone_opt_str(&self.pkg_fmt),
            bin_dir: clone_opt_str(&self.bin_dir),
            pub_key: clone_opt_str(&self.pub_key),
            overrides: ovs,
        };
        proof {
            assert(r@.overrides =~= self@.overrides);
            assert(r@ =~= self@);
        }
        r
    }

    /// A copy of the base fields with the per-target override table left
    /// behind.
    pub fn clone_without_overrides(&self) -> (r: Self)
        ensures
            r@.pkg_url == self@.pkg_url,
            r@.pkg_fmt == self@.pkg_fmt,
            r@.bin_dir == self@.bin_dir,
            r@.pub_key == self@.pub_key,
            r@.overrides.len() == 0,
    {
        PkgMeta {
            pkg_url: clone_opt_str(&self.pkg_url),
            pkg_fmt: clone_opt_str(&self.pkg_fmt),
            bin_dir: clone_opt_str(&self.bin_dir),
            pub_key: clone_opt_str(&self.pub_key),
            overrides: Vec::new(),
        }
    }

    /// Merge an override over this metadata: present fields replace, absent
    /// fields inherit; the override table is untouched.
    pub fn merge(&mut self, over: &PkgOverride)
        ensures
            final(self)@ == merged_meta(old(self)@, over@),
    {
        match &over.pkg_url {
            Some(s) => {
                self.pkg_url = Some(s.clone());
            },
            None => {},
        }
        match &over.pkg_fmt {
            Some(s) => {
                self.pkg_fmt = Some(s.clone());
            },
            None => {},
        }
        match &over.bin_dir {
            Some(s) => {
                self.bin_dir = Some(s.clone());
            },
            None => {},
        }
        match &over.pub_key {
            Some(s) => {
                self.pub_key = Some(s.clone());
            },
            None => {},
        }
    }

    /// Look up the override registered for this exact target triple.
    pub fn lookup_override(&self, target: &String) -> (r: Option<&PkgOverride>)
        ensures
            match r {
                Some(o) => spec_lookup_override(self@.overrides, target@) == Some(o@),
                None => spec_lookup_override(self@.overrides, target@) is None,
            },
    {
        let n = self.overrides.len();
        let mut i: usize = 0;
        proof {
            assert(self@.overrides.skip(0) =~= self@.overrides);
        }
        while i < n
            invariant
                n == self.overrides.len(),
                0 <= i <= n,
                spec_lookup_override(self@.overrides, target@) == spec_lookup_override(
                    self@.overrides.skip(i as int),
                    target@,
                ),
            decreases n - i,
        {
            proof {
                assert(self@.overrides.skip(i as int)[0] == self@.overrides[i as int]);
            }
            if self.overrides[i].0 == *target {
                return Some(&self.overrides[i].1);
            }
            proof {
                assert(self@.overrides.skip(i as int).drop_first() =~= self@.overrides.skip(
                    i as int + 1,
                ));
            }
            i = i + 1;
        }
        proof {
            assert(self@.overrides.skip(n as int).len() == 0);
        }
        None
    }

    /// The effective metadata for one target, per [`spec_target_meta`].
    pub fn merged_for_target(&self, target: &String, cli: &PkgOverride) -> (r: PkgMeta)
        ensures
            r@ == spec_target_meta(self@, target@, cli@),
    {
        let mut eff = self.clone_without_overrides();
        match self.lookup_override(target) {
            Some(o) => {
                eff.merge(o);
            },
            None => {},
        }
        eff.merge(cli);
        proof {
            assert(eff@.overrides =~= Seq::<(Seq<char>, PkgOverrideView)>::empty());
            assert(eff@ =~= spec_target_meta(self@, target@, cli@));
        }
        eff
    }
}

} // verus!
