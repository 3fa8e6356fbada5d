use vstd::prelude::*;
use crate::config;
use crate::utils::{
    lemma_views_index, lemma_views_len, contains_str, ends_with_str, is_substring, is_suffix, opt_view, starts_with_str, views,
    FileMetaData,
};

verus! {

broadcast use {lemma_views_index, lemma_views_len};

/// What `str::to_lowercase` makes of a string.
pub uninterp spec fn lower_of(s: Seq<char>) -> Seq<char>;

/// Relies on str::to_lowercase: the lower-case form, which depends on the
/// characters alone.
#[verifier::external_body]
fn lowercase(s: &str) -> (r: String)
    ensures
        r@ == lower_of(s@),
{
    s.to_lowercase()
}

/// A predicate over an entry's snapshot.
pub trait Filter {
    spec fn spec_matches(&self, m: FileMetaData) -> bool;

    fn matches(&self, file_meta_data: &FileMetaData) -> (r: bool)
        ensures
            r == self.spec_matches(*file_meta_data),
    ;
}

/// Whether an entry with extension `ext` passes an extension filter over
/// `exts`: an entry without extension passes exactly when the filter is
/// negated; otherwise it passes when listed, or when not listed under negation.
pub open spec fn extension_matches(exts: Seq<Seq<char>>, negate: bool, ext: Option<Seq<char>>) -> bool {
    match ext {
        None => negate,
        Some(e) => exts.contains(e) != negate,
    }
}

/// Keeps or rejects entries by their extension.
pub struct ExtensionFilter<'a> {
    extensions: &'a Vec<String>,
    negate: bool,
}

impl<'a> ExtensionFilter<'a> {
    pub fn new(extensions: &'a Vec<String>, negate: bool) -> (r: Self)
        ensures
            forall|m: FileMetaData|
                r.spec_matches(m) == extension_matches(
                    views(extensions@),
                    negate,
                    opt_view(m.extension),
                ),
    {
        ExtensionFilter { extensions, negate }
    }
}

impl<'a> Filter for ExtensionFilter<'a> {
    closed spec fn spec_matches(&self, m: FileMetaData) -> bool {
        extension_matches(views(self.extensions@), self.negate, opt_view(m.extension))
    }

    fn matches(&self, file_meta_data: &FileMetaData) -> (r: bool) {
        let file_ext = match &file_meta_data.extension {
            Some(ext) => ext,
            None => return self.negate,
        };
        let ghost exts = views(self.extensions@);
        let mut is_match = false;
        let mut i: usize = 0;
        while i < self.extensions.len()
            invariant
                i <= self.extensions@.len(),
                exts == views(self.extensions@),
                is_match == exists|k: int| 0 <= k < i && exts[k] == file_ext@,
            decreases self.extensions@.len() - i,
        {
            proof {
                assert(exts[i as int] == self.extensions@[i as int]@);
            }
            if self.extensions[i] == *file_ext {
                is_match = true;
            }
            i = i + 1;
        }
        proof {
            if exts.contains(file_ext@) {
                let k = choose|k: int| 0 <= k < exts.len() && exts[k] == file_ext@;
                assert(exts[k] == file_ext@);
            }
        }
        if self.negate {
            !is_match
        } else {
            is_match
        }
    }
}

/// Folds a name or pattern to lower case unless matching is case-sensitive.
pub open spec fn fold_case(s: Seq<char>, case_sensitive: bool) -> Seq<char> {
    if case_sensitive {
        s
    } else {
        lower_of(s)
    }
}

pub open spec fn opt_views(o: Option<Vec<String>>) -> Option<Seq<Seq<char>>> {
    match o {
        Some(v) => Some(views(v@)),
        None => None,
    }
}

pub open spec fn fold_patterns(o: Option<Seq<Seq<char>>>, case_sensitive: bool) -> Option<Seq<Seq<char>>> {
    match o {
        Some(ps) => Some(ps.map_values(|p: Seq<char>| fold_case(p, case_sensitive))),
        None => None,
    }
}

/// A dimension passes when it is absent or empty, or when `n` begins with one of its patterns.
pub open spec fn prefix_pass(o: Option<Seq<Seq<char>>>, n: Seq<char>) -> bool {
    match o {
        None => true,
        Some(ps) => ps.len() == 0 || exists|i: int| 0 <= i < ps.len() && ps[i].is_prefix_of(n),
    }
}

/// A dimension passes when it is absent or empty, or when `n` ends with one of its patterns.
pub open spec fn suffix_pass(o: Option<Seq<Seq<char>>>, n: Seq<char>) -> bool {
    match o {
        None => true,
        Some(ps) => ps.len() == 0 || exists|i: int| 0 <= i < ps.len() && is_suffix(ps[i], n),
    }
}

/// A dimension passes when it is absent or empty, or when one of its patterns occurs in `n`.
pub open spec fn substring_pass(o: Option<Seq<Seq<char>>>, n: Seq<char>) -> bool {
    match o {
        None => true,
        Some(ps) => ps.len() == 0 || exists|i: int| 0 <= i < ps.len() && is_substring(ps[i], n),
    }
}

/// Whether `name` passes a name filter configured with these pattern lists:
/// every present dimension must pass, after case folding where matching is
/// case-insensitive.
pub open spec fn name_matches(
    starts: Option<Seq<Seq<char>>>,
    ends: Option<Seq<Seq<char>>>,
    contains: Option<Seq<Seq<char>>>,
    case_sensitive: bool,
    name: Seq<char>,
) -> bool {
    let n = fold_case(name, case_sensitive);
    prefix_pass(fold_patterns(starts, case_sensitive), n)
        && suffix_pass(fold_patterns(ends, case_sensitive), n)
        && substring_pass(fold_patterns(contains, case_sensitive), n)
}

/// Keeps entries whose name begins, ends with, or holds one of the given patterns.
pub struct NameFilter {
    starts_with_filter: Option<Vec<String>>,
    ends_with_filter: Option<Vec<String>>,
    contains_filter: Option<Vec<String>>,
    case_sensitive: bool,
}

/// The patterns of one dimension, folded to lower case unless case matters.
fn fold_list(o: Option<&Vec<String>>, case_sensitive: bool) -> (r: Option<Vec<String>>)
    ensures
        opt_views(r) == fold_patterns(
            match o {
                Some(v) => Some(views(v@)),
                None => None,
            },
            case_sensitive,
        ),
{
    match o {
        None => None,
        Some(v) => {
            let mut out: Vec<String> = Vec::new();
            let mut i: usize = 0;
            while i < v.len()
                invariant
                    i <= v@.len(),
                    views(out@) =~= views(v@).subrange(0, i as int).map_values(
                        |p: Seq<char>| fold_case(p, case_sensitive),
                    ),
                decreases v@.len() - i,
            {
                let p = if case_sensitive {
                    v[i].clone()
                } else {
                    lowercase(v[i].as_str())
                };
                let ghost before = out@;
                out.push(p);
                proof {
                    assert(views(out@) =~= views(before).push(p@));
                    assert(views(v@).subrange(0, i + 1) =~= views(v@).subrange(0, i as int).push(
                        v@[i as int]@,
                    ));
                }
                i = i + 1;
            }
            proof {
                assert(views(v@).subrange(0, v@.len() as int) =~= views(v@));
            }
            Some(out)
        },
    }
}

/// Whether the list is empty or some pattern of it is a prefix of `name`.
fn any_prefix(ps: &Vec<String>, name: &str) -> (r: bool)
    ensures
        r == prefix_pass(Some(views(ps@)), name@),
{
    let ghost pv = views(ps@);
    if ps.len() == 0 {
        return true;
    }
    let mut i: usize = 0;
    while i < ps.len()
        invariant
            i <= ps@.len(),
            pv == views(ps@),
            forall|k: int| 0 <= k < i ==> !pv[k].is_prefix_of(name@),
        decreases ps@.len() - i,
    {
        if starts_with_str(name, ps[i].as_str()) {
            proof {
                let k = i as int;
                assert(pv[k] == ps@[k]@);
                assert(0 <= k < pv.len() && pv[k].is_prefix_of(name@));
            }
            return true;
        }
        proof {
            assert(pv[i as int] == ps@[i as int]@);
        }
        i = i + 1;
    }
    false
}

/// Whether the list is empty or some pattern of it is a suffix of `name`.
fn any_suffix(ps: &Vec<String>, name: &str) -> (r: bool)
    ensures
        r == suffix_pass(Some(views(ps@)), name@),
{
    let ghost pv = views(ps@);
    if ps.len() == 0 {
        return true;
    }
    let mut i: usize = 0;
    while i < ps.len()
        invariant
            i <= ps@.len(),
            pv == views(ps@),
            forall|k: int| 0 <= k < i ==> !is_suffix(pv[k], name@),
        decreases ps@.len() - i,
    {
        if ends_with_str(name, ps[i].as_str()) {
            proof {
                let k = i as int;
                assert(pv[k] == ps@[k]@);
                assert(0 <= k < pv.len() && is_suffix(pv[k], name@));
            }
            return true;
        }
        proof {
            assert(pv[i as int] == ps@[i as int]@);
        }
        i = i + 1;
    }
    false
}

/// Whether the list is empty or some pattern of it occurs in `name`.
fn any_substring(ps: &Vec<String>, name: &str) -> (r: bool)
    ensures
        r == substring_pass(Some(views(ps@)), name@),
{
    let ghost pv = views(ps@);
    if ps.len() == 0 {
        return true;
    }
    let mut i: usize = 0;
    while i < ps.len()
        invariant
            i <= ps@.len(),
            pv == views(ps@),
            forall|k: int| 0 <= k < i ==> !is_substring(pv[k], name@),
        decreases ps@.len() - i,
    {
        if contains_str(name, ps[i].as_str()) {
            proof {
                let k = i as int;
                assert(pv[k] == ps@[k]@);
                assert(0 <= k < pv.len() && is_substring(pv[k], name@));
            }
            return true;
        }
        proof {
            assert(pv[i as int] == ps@[i as int]@);
        }
        i = i + 1;
    }
    false
}

impl NameFilter {
    pub fn new(
        starts_with_filter: Option<&Vec<String>>,
        ends_with_filter: Option<&Vec<String>>,
        contains_filter: Option<&Vec<String>>,
        case_sensitive: bool,
    ) -> (r: Self)
        ensures
            forall|m: FileMetaData|
                r.spec_matches(m) == name_matches(
                    match starts_with_filter {
                        Some(v) => Some(views(v@)),
                        None => None,
                    },
                    match ends_with_filter {
                        Some(v) => Some(views(v@)),
                        None => None,
                    },
                    match contains_filter {
                        Some(v) => Some(views(v@)),
                        None => None,
                    },
                    case_sensitive,
                    m.file_name@,
                ),
    {
        NameFilter {
            starts_with_filter: fold_list(starts_with_filter, case_sensitive),
            ends_with_filter: fold_list(ends_with_filter, case_sensitive),
            contains_filter: fold_list(contains_filter, case_sensitive),
            case_sensitive,
        }
    }

    fn starts_with(&self, file_name: &str) -> (r: bool)
        ensures
            r == prefix_pass(opt_views(self.starts_with_filter), file_name@),
    {
        match &self.starts_with_filter {
            Some(prefixes) => any_prefix(prefixes, file_name),
            None => true,
        }
    }

    fn ends_with(&self, file_name: &str) -> (r: bool)
        ensures
            r == suffix_pass(opt_views(self.ends_with_filter), file_name@),
    {
        match &self.ends_with_filter {
            Some(suffixes) => any_suffix(suffixes, file_name),
            None => true,
        }
    }

    fn contains(&self, file_name: &str) -> (r: bool)
        ensures
            r == substring_pass(opt_views(self.contains_filter), file_name@),
    {
        match &self.contains_filter {
            Some(substrings) => any_substring(substrings, file_name),
            None => true,
        }
    }
}

impl Filter for NameFilter {
    closed spec fn spec_matches(&self, m: FileMetaData) -> bool {
        let n = fold_case(m.file_name@, self.case_sensitive);
        prefix_pass(opt_views(self.starts_with_filter), n)
            && suffix_pass(opt_views(self.ends_with_filter), n)
            && substring_pass(opt_views(self.contains_filter), n)
    }

    fn matches(&self, file_meta_data: &FileMetaData) -> (r: bool) {
        let folded: String;
        let file_name: &str = if self.case_sensitive {
            file_meta_data.file_name.as_str()
        } else {
            folded = lowercase(file_meta_data.file_name.as_str());
            folded.as_str()
        };
        self.starts_with(file_name) && self.ends_with(file_name) && self.contains(file_name)
    }
}

/// One filter of a rule's chain.
pub enum FilterKind<'a> {
    Extension(ExtensionFilter<'a>),
    Name(NameFilter),
}

impl<'a> Filter for FilterKind<'a> {
    open spec fn spec_matches(&self, m: FileMetaData) -> bool {
        match self {
            FilterKind::Extension(f) => f.spec_matches(m),
            FilterKind::Name(f) => f.spec_matches(m),
        }
    }

    fn matches(&self, file_meta_data: &FileMetaData) -> (r: bool) {
        match self {
            FilterKind::Extension(f) => f.matches(file_meta_data),
            FilterKind::Name(f) => f.matches(file_meta_data),
        }
    }
}

/// Whether an entry passes the extension part of a filter specification:
/// the allow-list where one is given, else the deny-list, else always.
pub open spec fn extension_part_matches(f: config::Filters, m: FileMetaData) -> bool {
    match f.extensions {
        Some(e) => extension_matches(views(e@), false, opt_view(m.extension)),
        None => match f.not_extensions {
            Some(e) => extension_matches(views(e@), true, opt_view(m.extension)),
            None => true,
        },
    }
}

/// Whether an entry passes the name part of a filter specification.
pub open spec fn name_part_matches(f: config::Filters, m: FileMetaData) -> bool {
    match f.name {
        Some(n) => name_matches(
            opt_views(n.starts_with),
            opt_views(n.ends_with),
            opt_views(n.contains),
            n.case_sensitive,
            m.file_name@,
        ),
        None => true,
    }
}

/// Whether an entry passes a whole filter specification.
pub open spec fn filters_match(f: config::Filters, m: FileMetaData) -> bool {
    extension_part_matches(f, m) && name_part_matches(f, m)
}

/// Whether every filter of a chain keeps the entry.
pub open spec fn chain_spec(chain: Seq<FilterKind>, m: FileMetaData) -> bool {
    forall|i: int| 0 <= i < chain.len() ==> (#[trigger] chain[i]).spec_matches(m)
}

/// Builds the filter chain of a specification: the extension filter first,
/// then the name filter, each only where configured.
pub fn parse<'a>(filters: &'a config::Filters) -> (r: Vec<FilterKind<'a>>)
    ensures
        forall|m: FileMetaData| chain_spec(r@, m) == filters_match(*filters, m),
{
    let mut chain: Vec<FilterKind<'a>> = Vec::new();
    match &filters.extensions {
        Some(e) => {
            let f = ExtensionFilter::new(e, false);
            chain.push(FilterKind::Extension(f));
            proof {
                assert forall|m: FileMetaData|
                    chain_spec(chain@, m) == extension_part_matches(*filters, m) by {
                    assert(chain@[0] == FilterKind::Extension(f));
                }
            }
        },
        None => match &filters.not_extensions {
            Some(e) => {
                let f = ExtensionFilter::new(e, true);
                chain.push(FilterKind::Extension(f));
                proof {
                    assert forall|m: FileMetaData|
                        chain_spec(chain@, m) == extension_part_matches(*filters, m) by {
                        assert(chain@[0] == FilterKind::Extension(f));
                    }
                }
            },
            None => {},
        },
    }
    let ghost ext_part = chain@;
    assert(forall|m: FileMetaData| chain_spec(ext_part, m) == extension_part_matches(*filters, m));
    match &filters.name {
        Some(n) => chain.push(
            FilterKind::Name(
                NameFilter::new(
                    n.starts_with.as_ref(),
                    n.ends_with.as_ref(),
                    n.contains.as_ref(),
                    n.case_sensitive,
                ),
            ),
        ),
        None => {},
    }
    proof {
        assert forall|m: FileMetaData| chain_spec(chain@, m) == filters_match(*filters, m) by {
            assert(chain_spec(ext_part, m) == extension_part_matches(*filters, m));
            if chain@.len() > ext_part.len() {
                assert(chain@ == ext_part.push(chain@.last()));
                assert(chain@.last().spec_matches(m) == name_part_matches(*filters, m));
                if chain_spec(ext_part, m) && name_part_matches(*filters, m) {
                    assert forall|i: int| 0 <= i < chain@.len() implies (
                    #[trigger] chain@[i]).spec_matches(m) by {
                        if i < ext_part.len() {
                            assert(chain@[i] == ext_part[i]);
                        }
                    }
                }
                if chain_spec(chain@, m) {
                    assert forall|i: int| 0 <= i < ext_part.len() implies (
                    #[trigger] ext_part[i]).spec_matches(m) by {
                        assert(chain@[i] == ext_part[i]);
                    }
                    assert(chain@[chain@.len() - 1].spec_matches(m));
                }
            } else {
                assert(chain@ == ext_part);
            }
        }
    }
    chain
}

/// Runs the chain in order and stops at the first filter that rejects the entry.
pub fn chain_matches(chain: &Vec<FilterKind>, file_meta_data: &FileMetaData) -> (r: bool)
    ensures
        r == chain_spec(chain@, *file_meta_data),
{
    let mut i: usize = 0;
    while i < chain.len()
        invariant
            i <= chain@.len(),
            forall|k: int| 0 <= k < i ==> (#[trigger] chain@[k]).spec_matches(*file_meta_data),
        decreases chain@.len() - i,
    {
        if !chain[i].matches(file_meta_data) {
            return false;
        }
        i = i + 1;
    }
    true
}

/// Without extension, an entry never passes a positive extension filter; an
/// entry whose extension is listed always does.
pub proof fn lemma_positive_extension_filter(exts: Seq<Seq<char>>, ext: Option<Seq<char>>)
    ensures
        ext is None ==> !extension_matches(exts, false, ext),
        ext is Some && exts.contains(ext->0) ==> extension_matches(exts, false, ext),
{
}

/// A negated extension filter keeps exactly the entries that the same filter
/// without negation rejects, entries without extension included.
pub proof fn lemma_negated_extension_filter(exts: Seq<Seq<char>>, ext: Option<Seq<char>>)
    ensures
        extension_matches(exts, true, ext) == !extension_matches(exts, false, ext),
        ext is None ==> extension_matches(exts, true, ext),
{
}

/// A name filter whose three pattern lists are each empty or absent keeps every name.
pub proof fn lemma_unconstrained_name_filter(
    starts: Option<Seq<Seq<char>>>,
    ends: Option<Seq<Seq<char>>>,
    contains: Option<Seq<Seq<char>>>,
    case_sensitive: bool,
    name: Seq<char>,
)
    requires
        starts is None || starts->0.len() == 0,
        ends is None || ends->0.len() == 0,
        contains is None || contains->0.len() == 0,
    ensures
        name_matches(starts, ends, contains, case_sensitive, name),
{
}

} // verus!
