//! The informational report: a filtered cross product of platforms,
//! directory-kind categories and variants, annotated with the static
//! support matrix.  It is independent of the machine the tool runs on.

use vstd::prelude::*;

use crate::Error;
use crate::output::Format;
use crate::platform::Platform;
use crate::platform::path::{Base, PlatformPath, PlatformPathKind, Project, User};
use crate::platform::status::{Status, StructuredStatus};
use crate::text::{join_lines, lex_fn, lemma_lex_total_ordering, sort_strings, spec_join_lines,
    views};
use vstd::seq_lib::lemma_sorted_unique;
use vstd::string::{StrSliceExecFns, StringExecFns};

verus! {

/// A selection criterion: subsets of platforms, categories and statuses.
/// An empty subset admits nothing; the constructors that stand for "all"
/// fill in every value of the dimension.
#[derive(Clone, Debug)]
pub struct InfoFilter {
    pub platforms: Vec<Platform>,
    pub paths: Vec<PlatformPathKind>,
    pub statuses: Vec<Status>,
}

impl Default for InfoFilter {
    fn default() -> (r: Self)
        ensures
            r.platforms@.len() == 0,
            r.paths@.len() == 0,
            r.statuses@.len() == 0,
    {
        InfoFilter { platforms: Vec::new(), paths: Vec::new(), statuses: Vec::new() }
    }
}

impl InfoFilter {
    /// Builds a filter from one optional selection per dimension; an absent
    /// selection means every value of that dimension.
    pub fn from_selection(
        platform: Option<Platform>,
        path: Option<PlatformPathKind>,
        status: Option<Status>,
    ) -> (r: InfoFilter)
        ensures
            r.platforms@ == (match platform {
                Some(p) => seq![p],
                None => Platform::spec_all(),
            }),
            r.paths@ == (match path {
                Some(k) => seq![k],
                None => PlatformPathKind::spec_all(),
            }),
            r.statuses@ == (match status {
                Some(s) => seq![s],
                None => Status::spec_all(),
            }),
    {
        let platforms = match platform {
            Some(p) => {
                let mut v: Vec<Platform> = Vec::new();
                v.push(p);
                proof {
                    assert(v@ =~= seq![p]);
                }
                v
            },
            None => Platform::all(),
        };
        let paths = match path {
            Some(k) => {
                let mut v: Vec<PlatformPathKind> = Vec::new();
                v.push(k);
                proof {
                    assert(v@ =~= seq![k]);
                }
                v
            },
            None => PlatformPathKind::all(),
        };
        let statuses = match status {
            Some(s) => {
                let mut v: Vec<Status> = Vec::new();
                v.push(s);
                proof {
                    assert(v@ =~= seq![s]);
                }
                v
            },
            None => Status::all(),
        };
        InfoFilter { platforms, paths, statuses }
    }
}

/// One report entry: a variant of one category, on one platform, with its
/// support status.
#[derive(Clone, Copy, Debug, PartialEq, Eq, Hash, Structural)]
pub struct InfoRecord {
    pub platform: Platform,
    pub kind: PlatformPathKind,
    pub path: PlatformPath,
    pub status: Status,
}

/// The variants of one category, as tagged requests, in declaration order.
pub open spec fn spec_variants(kind: PlatformPathKind) -> Seq<PlatformPath> {
    match kind {
        PlatformPathKind::Base => Base::spec_all().map_values(|b: Base| PlatformPath::Base(b)),
        PlatformPathKind::User => User::spec_all().map_values(|u: User| PlatformPath::User(u)),
        PlatformPathKind::Project => Project::spec_all().map_values(
            |p: Project| PlatformPath::Project(p),
        ),
    }
}

/// Enumerates the variants of one category, as tagged requests.
pub fn variants(kind: &PlatformPathKind) -> (r: Vec<PlatformPath>)
    ensures
        r@ == spec_variants(*kind),
{
    let mut v: Vec<PlatformPath> = Vec::new();
    match kind {
        PlatformPathKind::Base => {
            let items = Base::all();
            let mut i: usize = 0;
            while i < items.len()
                invariant
                    i <= items@.len(),
                    items@ == Base::spec_all(),
                    v@ == items@.take(i as int).map_values(|b: Base| PlatformPath::Base(b)),
                decreases items@.len() - i,
            {
                v.push(items[i].into());
                i += 1;
                proof {
                    assert(v@ =~= items@.take(i as int).map_values(
                        |b: Base| PlatformPath::Base(b),
                    ));
                }
            }
            proof {
                assert(items@.take(items@.len() as int) =~= items@);
            }
        },
        PlatformPathKind::User => {
            let items = User::all();
            let mut i: usize = 0;
            while i < items.len()
                invariant
                    i <= items@.len(),
                    items@ == User::spec_all(),
                    v@ == items@.take(i as int).map_values(|u: User| PlatformPath::User(u)),
                decreases items@.len() - i,
            {
                v.push(items[i] .into());
                i += 1;
                proof {
                    assert(v@ =~= items@.take(i as int).map_values(
                        |u: User| PlatformPath::User(u),
                    ));
                }
            }
            proof {
                assert(items@.take(items@.len() as int) =~= items@);
            }
        },
        PlatformPathKind::Project => {
            let items = Project::all();
            let mut i: usize = 0;
            while i < items.len()
                invariant
                    i <= items@.len(),
                    items@ == Project::spec_all(),
                    v@ == items@.take(i as int).map_values(
                        |p: Project| PlatformPath::Project(p),
                    ),
                decreases items@.len() - i,
            {
                v.push(items[i] .into());
                i += 1;
                proof {
                    assert(v@ =~= items@.take(i as int).map_values(
                        |p: Project| PlatformPath::Project(p),
                    ));
                }
            }
            proof {
                assert(items@.take(items@.len() as int) =~= items@);
            }
        },
    }
    v
}

/// The candidate record for one variant on one platform.
pub open spec fn spec_record(
    platform: Platform,
    kind: PlatformPathKind,
    path: PlatformPath,
) -> InfoRecord {
    InfoRecord { platform, kind, path, status: path.spec_status(platform) }
}

/// The records that the given variants of one category contribute on one
/// platform: each annotated from the matrix, kept when the filter admits
/// its status.
pub open spec fn spec_variant_records(
    statuses: Seq<Status>,
    platform: Platform,
    kind: PlatformPathKind,
    variants: Seq<PlatformPath>,
) -> Seq<InfoRecord>
    decreases variants.len(),
{
    if variants.len() == 0 {
        Seq::empty()
    } else {
        let rest = spec_variant_records(statuses, platform, kind, variants.drop_last());
        let rec = spec_record(platform, kind, variants.last());
        if statuses.contains(rec.status) {
            rest.push(rec)
        } else {
            rest
        }
    }
}

/// The records of one platform over the given categories, keeping the
/// categories the filter admits.
pub open spec fn spec_kind_records(
    paths: Seq<PlatformPathKind>,
    statuses: Seq<Status>,
    platform: Platform,
    kinds: Seq<PlatformPathKind>,
) -> Seq<InfoRecord>
    decreases kinds.len(),
{
    if kinds.len() == 0 {
        Seq::empty()
    } else {
        let rest = spec_kind_records(paths, statuses, platform, kinds.drop_last());
        let k = kinds.last();
        if paths.contains(k) {
            rest + spec_variant_records(statuses, platform, k, spec_variants(k))
        } else {
            rest
        }
    }
}

/// The full report over the given platforms, keeping the platforms the
/// filter admits.
pub open spec fn spec_platform_records(filter: InfoFilter, platforms: Seq<Platform>) -> Seq<
    InfoRecord,
>
    decreases platforms.len(),
{
    if platforms.len() == 0 {
        Seq::empty()
    } else {
        let rest = spec_platform_records(filter, platforms.drop_last());
        let p = platforms.last();
        if filter.platforms@.contains(p) {
            rest + spec_kind_records(
                filter.paths@,
                filter.statuses@,
                p,
                PlatformPathKind::spec_all(),
            )
        } else {
            rest
        }
    }
}

/// The records of the report a filter selects, in canonical declaration
/// order: platforms outermost, then categories, then variants.
pub open spec fn spec_filtered(filter: InfoFilter) -> Seq<InfoRecord> {
    spec_platform_records(filter, Platform::spec_all())
}

/// The members of `all` that `sel` admits, in the order of `all`.
pub open spec fn spec_selected<T>(sel: Seq<T>, all: Seq<T>) -> Seq<T>
    decreases all.len(),
{
    if all.len() == 0 {
        Seq::empty()
    } else {
        let rest = spec_selected(sel, all.drop_last());
        if sel.contains(all.last()) {
            rest.push(all.last())
        } else {
            rest
        }
    }
}

/// Decides membership of a platform in a vector.
pub fn contains_platform(v: &Vec<Platform>, x: &Platform) -> (r: bool)
    ensures
        r == v@.contains(*x),
{
    let mut i: usize = 0;
    while i < v.len()
        invariant
            i <= v@.len(),
            forall|j: int| 0 <= j < i ==> v@[j] != *x,
        decreases v@.len() - i,
    {
        if v[i] == *x {
            return true;
        }
        i += 1;
    }
    false
}

/// Decides membership of a category in a vector.
pub fn contains_kind(v: &Vec<PlatformPathKind>, x: &PlatformPathKind) -> (r: bool)
    ensures
        r == v@.contains(*x),
{
    let mut i: usize = 0;
    while i < v.len()
        invariant
            i <= v@.len(),
            forall|j: int| 0 <= j < i ==> v@[j] != *x,
        decreases v@.len() - i,
    {
        if v[i] == *x {
            return true;
        }
        i += 1;
    }
    false
}

/// Decides membership of a status in a vector.
pub fn contains_status(v: &Vec<Status>, x: &Status) -> (r: bool)
    ensures
        r == v@.contains(*x),
{
    let mut i: usize = 0;
    while i < v.len()
        invariant
            i <= v@.len(),
            forall|j: int| 0 <= j < i ==> v@[j] != *x,
        decreases v@.len() - i,
    {
        if v[i] == *x {
            return true;
        }
        i += 1;
    }
    false
}

/// A report: the selected platforms and categories, and the records the
/// filter admitted, in canonical order.
#[derive(Clone, Debug)]
pub struct Info {
    pub platforms: Vec<Platform>,
    pub kinds: Vec<PlatformPathKind>,
    pub records: Vec<InfoRecord>,
}

impl Info {
    /// Builds the report a filter selects: the cross product of the admitted
    /// platforms and categories with all their variants, each annotated from
    /// the static matrix, restricted to the admitted statuses.
    #[verifier::loop_isolation(false)]
    pub fn filtered(filter: &InfoFilter) -> (r: Info)
        ensures
            r.records@ == spec_filtered(*filter),
            r.platforms@ == spec_selected(filter.platforms@, Platform::spec_all()),
            r.kinds@ == spec_selected(filter.paths@, PlatformPathKind::spec_all()),
    {
        let all_platforms = Platform::all();
        let all_kinds = PlatformPathKind::all();
        let mut records: Vec<InfoRecord> = Vec::new();
        let mut platforms: Vec<Platform> = Vec::new();
        let mut kinds: Vec<PlatformPathKind> = Vec::new();

        let mut ki: usize = 0;
        proof {
            assert(PlatformPathKind::spec_all().take(0) =~= Seq::<PlatformPathKind>::empty());
        }
        while ki < all_kinds.len()
            invariant
                ki <= all_kinds@.len(),
                kinds@ == spec_selected(
                    filter.paths@,
                    PlatformPathKind::spec_all().take(ki as int),
                ),
            decreases all_kinds@.len() - ki,
        {
            let k = all_kinds[ki];
            if contains_kind(&filter.paths, &k) {
                kinds.push(k);
            }
            ki += 1;
            proof {
                let s = PlatformPathKind::spec_all().take(ki as int);
                assert(s.drop_last() =~= PlatformPathKind::spec_all().take(ki - 1));
                assert(s.last() == PlatformPathKind::spec_all()[ki - 1]);
            }
        }
        proof {
            assert(PlatformPathKind::spec_all().take(all_kinds@.len() as int)
                =~= PlatformPathKind::spec_all());
        }

        let mut pi: usize = 0;
        proof {
            assert(Platform::spec_all().take(0) =~= Seq::<Platform>::empty());
        }
        while pi < all_platforms.len()
            invariant
                pi <= all_platforms@.len(),
                records@ == spec_platform_records(*filter, Platform::spec_all().take(pi as int)),
                platforms@ == spec_selected(
                    filter.platforms@,
                    Platform::spec_all().take(pi as int),
                ),
            decreases all_platforms@.len() - pi,
        {
            let p = all_platforms[pi];
            if contains_platform(&filter.platforms, &p) {
                platforms.push(p);

                let mut kj: usize = 0;
                proof {
                    assert(PlatformPathKind::spec_all().take(0) =~= Seq::<
                        PlatformPathKind,
                    >::empty());
                }
                while kj < all_kinds.len()
                    invariant
                        kj <= all_kinds@.len(),
                        records@ == spec_platform_records(
                            *filter,
                            Platform::spec_all().take(pi as int),
                        ) + spec_kind_records(
                            filter.paths@,
                            filter.statuses@,
                            p,
                            PlatformPathKind::spec_all().take(kj as int),
                        ),
                    decreases all_kinds@.len() - kj,
                {
                    let k = all_kinds[kj];
                    if contains_kind(&filter.paths, &k) {
                        let vars = variants(&k);
                        let mut vi: usize = 0;
                        proof {
                            assert(spec_variants(k).take(0) =~= Seq::<PlatformPath>::empty());
                        }
                        while vi < vars.len()
                            invariant
                                vi <= vars@.len(),
                                vars@ == spec_variants(k),
                                records@ == spec_platform_records(
                                    *filter,
                                    Platform::spec_all().take(pi as int),
                                ) + spec_kind_records(
                                    filter.paths@,
                                    filter.statuses@,
                                    p,
                                    PlatformPathKind::spec_all().take(kj as int),
                                ) + spec_variant_records(
                                    filter.statuses@,
                                    p,
                                    k,
                                    spec_variants(k).take(vi as int),
                                ),
                            decreases vars@.len() - vi,
                        {
                            let path = vars[vi];
                            let status = path.status(&p);
                            if contains_status(&filter.statuses, &status) {
                                records.push(InfoRecord { platform: p, kind: k, path, status });
                            }
                            vi += 1;
                            proof {
                                let s = spec_variants(k).take(vi as int);
                                assert(s.drop_last() =~= spec_variants(k).take(vi - 1));
                                assert(s.last() == spec_variants(k)[vi - 1]);
                            }
                        }
                        proof {
                            assert(spec_variants(k).take(vars@.len() as int) =~= spec_variants(
                                k,
                            ));
                        }
                    }
                    kj += 1;
                    proof {
                        let s = PlatformPathKind::spec_all().take(kj as int);
                        assert(s.drop_last() =~= PlatformPathKind::spec_all().take(kj - 1));
                        assert(s.last() == PlatformPathKind::spec_all()[kj - 1]);
                    }
                }
                proof {
                    assert(PlatformPathKind::spec_all().take(all_kinds@.len() as int)
                        =~= PlatformPathKind::spec_all());
                }
            }
            pi += 1;
            proof {
                let s = Platform::spec_all().take(pi as int);
                assert(s.drop_last() =~= Platform::spec_all().take(pi - 1));
                assert(s.last() == Platform::spec_all()[pi - 1]);
            }
        }
        proof {
            assert(Platform::spec_all().take(all_platforms@.len() as int) =~= Platform::spec_all());
        }

        Info { platforms, kinds, records }
    }
}

proof fn lemma_variant_records_empty_statuses(
    statuses: Seq<Status>,
    platform: Platform,
    kind: PlatformPathKind,
    variants: Seq<PlatformPath>,
)
    requires
        statuses.len() == 0,
    ensures
        spec_variant_records(statuses, platform, kind, variants).len() == 0,
    decreases variants.len(),
{
    if variants.len() > 0 {
        lemma_variant_records_empty_statuses(statuses, platform, kind, variants.drop_last());
    }
}

proof fn lemma_kind_records_empty(
    paths: Seq<PlatformPathKind>,
    statuses: Seq<Status>,
    platform: Platform,
    kinds: Seq<PlatformPathKind>,
)
    requires
        paths.len() == 0 || statuses.len() == 0,
    ensures
        spec_kind_records(paths, statuses, platform, kinds).len() == 0,
    decreases kinds.len(),
{
    if kinds.len() > 0 {
        lemma_kind_records_empty(paths, statuses, platform, kinds.drop_last());
        if paths.len() > 0 {
            lemma_variant_records_empty_statuses(
                statuses,
                platform,
                kinds.last(),
                spec_variants(kinds.last()),
            );
        }
    }
}

proof fn lemma_platform_records_empty(filter: InfoFilter, platforms: Seq<Platform>)
    requires
        filter.platforms@.len() == 0 || filter.paths@.len() == 0 || filter.statuses@.len() == 0,
    ensures
        spec_platform_records(filter, platforms).len() == 0,
    decreases platforms.len(),
{
    if platforms.len() > 0 {
        lemma_platform_records_empty(filter, platforms.drop_last());
        if filter.platforms@.len() > 0 {
            lemma_kind_records_empty(
                filter.paths@,
                filter.statuses@,
                platforms.last(),
                PlatformPathKind::spec_all(),
            );
        }
    }
}

/// A filter that is empty on any one dimension selects no record at all,
/// whatever the other dimensions hold.
pub proof fn lemma_empty_dimension_no_records(filter: InfoFilter)
    requires
        filter.platforms@.len() == 0 || filter.paths@.len() == 0 || filter.statuses@.len() == 0,
    ensures
        spec_filtered(filter).len() == 0,
{
    lemma_platform_records_empty(filter, Platform::spec_all());
}

proof fn lemma_variant_records_all_statuses(
    statuses: Seq<Status>,
    platform: Platform,
    kind: PlatformPathKind,
    variants: Seq<PlatformPath>,
)
    requires
        forall|s: Status| statuses.contains(s),
    ensures
        spec_variant_records(statuses, platform, kind, variants).len() == variants.len(),
    decreases variants.len(),
{
    if variants.len() > 0 {
        lemma_variant_records_all_statuses(statuses, platform, kind, variants.drop_last());
        assert(statuses.contains(spec_record(platform, kind, variants.last()).status));
    }
}

/// The number of variants that a run of categories contributes.
pub open spec fn spec_variant_count(kinds: Seq<PlatformPathKind>) -> nat
    decreases kinds.len(),
{
    if kinds.len() == 0 {
        0
    } else {
        spec_variant_count(kinds.drop_last()) + spec_variants(kinds.last()).len()
    }
}

proof fn lemma_variant_count_all_kinds()
    ensures
        spec_variant_count(PlatformPathKind::spec_all()) == 27,
{
    let ks = PlatformPathKind::spec_all();
    assert(spec_variants(PlatformPathKind::Base).len() == 9);
    assert(spec_variants(PlatformPathKind::User).len() == 10);
    assert(spec_variants(PlatformPathKind::Project).len() == 8);
    assert(seq![PlatformPathKind::Base].drop_last() =~= Seq::<PlatformPathKind>::empty());
    assert(seq![PlatformPathKind::Base, PlatformPathKind::User].drop_last() =~= seq![
        PlatformPathKind::Base,
    ]);
    assert(ks.drop_last() =~= seq![PlatformPathKind::Base, PlatformPathKind::User]);
    assert(spec_variant_count(Seq::<PlatformPathKind>::empty()) == 0);
    assert(spec_variant_count(seq![PlatformPathKind::Base]) == 9);
    assert(spec_variant_count(seq![PlatformPathKind::Base, PlatformPathKind::User]) == 19);
    assert(spec_variant_count(ks) == 27);
}

proof fn lemma_kind_records_all(
    paths: Seq<PlatformPathKind>,
    statuses: Seq<Status>,
    platform: Platform,
    kinds: Seq<PlatformPathKind>,
)
    requires
        forall|k: PlatformPathKind| paths.contains(k),
        forall|s: Status| statuses.contains(s),
    ensures
        spec_kind_records(paths, statuses, platform, kinds).len() == spec_variant_count(kinds),
    decreases kinds.len(),
{
    if kinds.len() > 0 {
        lemma_kind_records_all(paths, statuses, platform, kinds.drop_last());
        assert(paths.contains(kinds.last()));
        lemma_variant_records_all_statuses(
            statuses,
            platform,
            kinds.last(),
            spec_variants(kinds.last()),
        );
    }
}

proof fn lemma_platform_records_all(filter: InfoFilter, platforms: Seq<Platform>)
    requires
        forall|p: Platform| filter.platforms@.contains(p),
        forall|k: PlatformPathKind| filter.paths@.contains(k),
        forall|s: Status| filter.statuses@.contains(s),
    ensures
        spec_platform_records(filter, platforms).len() == platforms.len() * 27,
    decreases platforms.len(),
{
    if platforms.len() > 0 {
        lemma_platform_records_all(filter, platforms.drop_last());
        assert(filter.platforms@.contains(platforms.last()));
        lemma_kind_records_all(
            filter.paths@,
            filter.statuses@,
            platforms.last(),
            PlatformPathKind::spec_all(),
        );
        lemma_variant_count_all_kinds();
    }
}

/// A filter that admits every platform, every category and every status
/// selects one record per platform and variant: all 4 * 27 of them.
pub proof fn lemma_full_filter_count(filter: InfoFilter)
    requires
        forall|p: Platform| filter.platforms@.contains(p),
        forall|k: PlatformPathKind| filter.paths@.contains(k),
        forall|s: Status| filter.statuses@.contains(s),
    ensures
        spec_filtered(filter).len() == 108,
{
    lemma_platform_records_all(filter, Platform::spec_all());
}

/// One report line: platform, category, variant and status labels,
/// separated by single spaces.
pub open spec fn spec_format_record(r: InfoRecord) -> Seq<char> {
    r.platform.spec_label() + " "@ + r.kind.spec_label() + " "@ + r.path.spec_label() + " "@
        + r.status.spec_label()
}

/// The lines of a run of records, in record order.
pub open spec fn spec_lines(records: Seq<InfoRecord>) -> Seq<Seq<char>> {
    records.map_values(|r: InfoRecord| spec_format_record(r))
}

/// The text form of a report: its lines sorted lexicographically and joined
/// with newlines, deterministic whatever order the records arrived in.
pub open spec fn spec_render_text(records: Seq<InfoRecord>) -> Seq<char> {
    spec_join_lines(spec_lines(records).sort_by(lex_fn()))
}

/// Formats one report line.
fn format_record(rec: &InfoRecord) -> (r: String)
    ensures
        r@ == spec_format_record(*rec),
{
    let mut s = String::from_str(rec.platform.label());
    s.append(" ");
    s.append(rec.kind.label());
    s.append(" ");
    s.append(rec.path.label());
    s.append(" ");
    s.append(rec.status.label());
    s
}

impl Info {
    /// Renders the report as sorted text lines.
    pub fn render_text(&self) -> (r: String)
        ensures
            r@ == spec_render_text(self.records@),
    {
        let mut lines: Vec<String> = Vec::new();
        let mut i: usize = 0;
        proof {
            assert(views(lines@) =~= spec_lines(self.records@.take(0)));
        }
        while i < self.records.len()
            invariant
                i <= self.records@.len(),
                views(lines@) == spec_lines(self.records@.take(i as int)),
            decreases self.records@.len() - i,
        {
            let ghost old_lines = lines@;
            let line = format_record(&self.records[i]);
            let ghost lv = line@;
            lines.push(line);
            i += 1;
            proof {
                assert(views(lines@) =~= views(old_lines).push(lv));
                assert(spec_lines(self.records@.take(i as int)) =~= spec_lines(
                    self.records@.take(i - 1),
                ).push(spec_format_record(self.records@[i - 1])));
                assert(views(lines@) =~= spec_lines(self.records@.take(i as int)));
            }
        }
        proof {
            assert(self.records@.take(self.records@.len() as int) =~= self.records@);
        }
        let sorted = sort_strings(lines);
        proof {
            lemma_lex_total_ordering();
            spec_lines(self.records@).lemma_sort_by_ensures(lex_fn());
            lemma_sorted_unique(
                views(sorted@),
                spec_lines(self.records@).sort_by(lex_fn()),
                lex_fn(),
            );
        }
        join_lines(&sorted)
    }
}

proof fn lemma_lines_multiset(r1: Seq<InfoRecord>, r2: Seq<InfoRecord>)
    requires
        r1.to_multiset() == r2.to_multiset(),
    ensures
        spec_lines(r1).to_multiset() == spec_lines(r2).to_multiset(),
    decreases r1.len(),
{
    broadcast use vstd::seq_lib::group_to_multiset_ensures;
    broadcast use vstd::multiset::group_multiset_axioms;

    if r1.len() == 0 {
        assert(r1.to_multiset().len() == r1.len());
        assert(r2.to_multiset().len() == r2.len());
        assert(r2.len() == 0);
        assert(spec_lines(r1) =~= spec_lines(r2));
    } else {
        let x = r1.last();
        let fx = spec_format_record(x);
        assert(r1.to_multiset().count(x) > 0) by {
            assert(r1.contains(x));
        }
        assert(r2.contains(x));
        let i = choose|i: int| 0 <= i < r2.len() && r2[i] == x;
        let r2r = r2.remove(i);
        assert(r2r.to_multiset() =~= r2.to_multiset().remove(x));
        assert(r1.remove(r1.len() - 1) =~= r1.drop_last());
        assert(r1.drop_last().to_multiset() =~= r1.to_multiset().remove(x));
        lemma_lines_multiset(r1.drop_last(), r2r);
        assert(spec_lines(r1) =~= spec_lines(r1.drop_last()).push(fx));
        assert(spec_lines(r1.drop_last()).push(fx).to_multiset() =~= spec_lines(
            r1.drop_last(),
        ).to_multiset().insert(fx));
        assert(spec_lines(r2r) =~= spec_lines(r2).remove(i));
        assert(spec_lines(r2).remove(i).to_multiset() =~= spec_lines(r2).to_multiset().remove(
            spec_lines(r2)[i],
        ));
        assert(spec_lines(r2)[i] == fx);
        assert(spec_lines(r2).to_multiset().count(fx) > 0) by {
            assert(spec_lines(r2).contains(fx));
        }
        assert(spec_lines(r1).to_multiset() =~= spec_lines(r2).to_multiset());
    }
}

/// One wrapped status of the structured report: the field label and the
/// status label, the shape `StructuredStatus` serializes to.
pub type StatusCell = (String, String);

/// The admitted variants of one category: each variant label with its
/// wrapped status.
pub type StatusEntries = Vec<(String, StatusCell)>;

/// One platform's rows: each selected category label with its entries.
pub type CategoryGroups = Vec<(String, StatusEntries)>;

/// The grouped report: each selected platform label with its rows.
pub type ReportGroups = Vec<(String, CategoryGroups)>;

/// The label views of a run of status entries.
pub open spec fn entry_views(s: Seq<(String, StatusCell)>) -> Seq<
    (Seq<char>, (Seq<char>, Seq<char>)),
> {
    s.map_values(|e: (String, StatusCell)| (e.0@, ((e.1).0@, (e.1).1@)))
}

/// The label views of a run of category groups.
pub open spec fn category_views(s: Seq<(String, StatusEntries)>) -> Seq<
    (Seq<char>, Seq<(Seq<char>, (Seq<char>, Seq<char>))>),
> {
    s.map_values(|g: (String, StatusEntries)| (g.0@, entry_views(g.1@)))
}

/// The label views of a grouped report.
pub open spec fn group_views(s: Seq<(String, CategoryGroups)>) -> Seq<
    (Seq<char>, Seq<(Seq<char>, Seq<(Seq<char>, (Seq<char>, Seq<char>))>)>),
> {
    s.map_values(|g: (String, CategoryGroups)| (g.0@, category_views(g.1@)))
}

/// The status of the first record for one (platform, category, variant)
/// triple, if the run holds one.
pub open spec fn spec_find_status(
    records: Seq<InfoRecord>,
    platform: Platform,
    kind: PlatformPathKind,
    path: PlatformPath,
) -> Option<Status>
    decreases records.len(),
{
    if records.len() == 0 {
        None
    } else if records[0].platform == platform && records[0].kind == kind && records[0].path
        == path {
        Some(records[0].status)
    } else {
        spec_find_status(records.drop_first(), platform, kind, path)
    }
}

/// The entries of one platform and category: the variants that carry a
/// record, in declaration order, each labelled and wrapped.
pub open spec fn spec_group_entries(
    records: Seq<InfoRecord>,
    platform: Platform,
    kind: PlatformPathKind,
    variants: Seq<PlatformPath>,
) -> Seq<(Seq<char>, (Seq<char>, Seq<char>))>
    decreases variants.len(),
{
    if variants.len() == 0 {
        Seq::empty()
    } else {
        let rest = spec_group_entries(records, platform, kind, variants.drop_last());
        match spec_find_status(records, platform, kind, variants.last()) {
            Some(st) => rest.push((variants.last().spec_label(), ("status"@, st.spec_label()))),
            None => rest,
        }
    }
}

/// One platform's rows over the given categories, every category present
/// even when all its statuses were filtered away.
pub open spec fn spec_category_groups(
    records: Seq<InfoRecord>,
    platform: Platform,
    kinds: Seq<PlatformPathKind>,
) -> Seq<(Seq<char>, Seq<(Seq<char>, (Seq<char>, Seq<char>))>)>
    decreases kinds.len(),
{
    if kinds.len() == 0 {
        Seq::empty()
    } else {
        spec_category_groups(records, platform, kinds.drop_last()).push(
            (
                kinds.last().spec_label(),
                spec_group_entries(records, platform, kinds.last(), spec_variants(kinds.last())),
            ),
        )
    }
}

/// The grouped report of a run of records over the given platforms and
/// categories, by label throughout.
pub open spec fn spec_grouped(
    records: Seq<InfoRecord>,
    platforms: Seq<Platform>,
    kinds: Seq<PlatformPathKind>,
) -> Seq<(Seq<char>, Seq<(Seq<char>, Seq<(Seq<char>, (Seq<char>, Seq<char>))>)>)>
    decreases platforms.len(),
{
    if platforms.len() == 0 {
        Seq::empty()
    } else {
        spec_grouped(records, platforms.drop_last(), kinds).push(
            (
                platforms.last().spec_label(),
                spec_category_groups(records, platforms.last(), kinds),
            ),
        )
    }
}

/// Relies on serde_json::to_string over label-keyed nested maps built
/// one-for-one from the given rows: string keys throughout, so encoding
/// cannot fail; the text follows the maps' own iteration order.  An
/// encoding failure would surface as None.
#[verifier::external_body]
fn report_json(groups: &ReportGroups) -> (r: Option<String>)
    ensures
        r is Some,
{
    let mut top = std::collections::HashMap::new();
    for (p, cats) in groups.iter() {
        let mut by_kind = std::collections::HashMap::new();
        for (k, entries) in cats.iter() {
            let mut by_path = std::collections::HashMap::new();
            for (v, (field, status)) in entries.iter() {
                by_path.insert(v, std::collections::HashMap::from([(field, status)]));
            }
            by_kind.insert(k, by_path);
        }
        top.insert(p, by_kind);
    }
    serde_json::to_string(&top).ok()
}

/// Relies on serde_json::to_string_pretty over label-keyed nested maps
/// built one-for-one from the given rows: string keys throughout, so
/// encoding cannot fail; the text follows the maps' own iteration order.
/// An encoding failure would surface as None.
#[verifier::external_body]
fn report_json_pretty(groups: &ReportGroups) -> (r: Option<String>)
    ensures
        r is Some,
{
    let mut top = std::collections::HashMap::new();
    for (p, cats) in groups.iter() {
        let mut by_kind = std::collections::HashMap::new();
        for (k, entries) in cats.iter() {
            let mut by_path = std::collections::HashMap::new();
            for (v, (field, status)) in entries.iter() {
                by_path.insert(v, std::collections::HashMap::from([(field, status)]));
            }
            by_kind.insert(k, by_path);
        }
        top.insert(p, by_kind);
    }
    serde_json::to_string_pretty(&top).ok()
}

/// Relies on serde_yaml::to_string over label-keyed nested maps built
/// one-for-one from the given rows: it fails only when a Serialize impl
/// decides to fail, and maps of strings only forward, so encoding cannot
/// fail here; the text follows the maps' own iteration order.  An
/// encoding failure would surface as None.
#[verifier::external_body]
fn report_yaml(groups: &ReportGroups) -> (r: Option<String>)
    ensures
        r is Some,
{
    let mut top = std::collections::HashMap::new();
    for (p, cats) in groups.iter() {
        let mut by_kind = std::collections::HashMap::new();
        for (k, entries) in cats.iter() {
            let mut by_path = std::collections::HashMap::new();
            for (v, (field, status)) in entries.iter() {
                by_path.insert(v, std::collections::HashMap::from([(field, status)]));
            }
            by_kind.insert(k, by_path);
        }
        top.insert(p, by_kind);
    }
    serde_yaml::to_string(&top).ok()
}

/// The status of the record for one (platform, category, variant) triple,
/// if the report holds one.
fn find_status(
    records: &Vec<InfoRecord>,
    platform: &Platform,
    kind: &PlatformPathKind,
    path: &PlatformPath,
) -> (r: Option<Status>)
    ensures
        r == spec_find_status(records@, *platform, *kind, *path),
{
    let mut i: usize = 0;
    proof {
        assert(records@.skip(0) =~= records@);
    }
    while i < records.len()
        invariant
            i <= records@.len(),
            spec_find_status(records@, *platform, *kind, *path) == spec_find_status(
                records@.skip(i as int),
                *platform,
                *kind,
                *path,
            ),
        decreases records@.len() - i,
    {
        let rec = &records[i];
        proof {
            assert(records@.skip(i as int)[0] == records@[i as int]);
        }
        if rec.platform == *platform && rec.kind == *kind && rec.path == *path {
            return Some(rec.status);
        }
        i += 1;
        proof {
            assert(records@.skip(i - 1).drop_first() =~= records@.skip(i as int));
        }
    }
    proof {
        assert(records@.skip(records@.len() as int).len() == 0);
    }
    None
}

impl Info {
    /// The report regrouped by label, as the structured formats present
    /// it: one row per selected platform, one per selected category within
    /// it — kept even when every status was filtered away — and the
    /// admitted variants with their wrapped statuses, in declaration order
    /// throughout.
    #[verifier::loop_isolation(false)]
    pub fn grouped(&self) -> (r: ReportGroups)
        ensures
            group_views(r@) == spec_grouped(self.records@, self.platforms@, self.kinds@),
    {
        let mut groups: ReportGroups = Vec::new();
        let mut pi: usize = 0;
        proof {
            assert(group_views(groups@) =~= spec_grouped(
                self.records@,
                self.platforms@.take(0),
                self.kinds@,
            ));
        }
        while pi < self.platforms.len()
            invariant
                pi <= self.platforms@.len(),
                group_views(groups@) == spec_grouped(
                    self.records@,
                    self.platforms@.take(pi as int),
                    self.kinds@,
                ),
            decreases self.platforms@.len() - pi,
        {
            let p = self.platforms[pi];
            let mut cats: CategoryGroups = Vec::new();
            let mut ki: usize = 0;
            proof {
                assert(category_views(cats@) =~= spec_category_groups(
                    self.records@,
                    p,
                    self.kinds@.take(0),
                ));
            }
            while ki < self.kinds.len()
                invariant
                    ki <= self.kinds@.len(),
                    category_views(cats@) == spec_category_groups(
                        self.records@,
                        p,
                        self.kinds@.take(ki as int),
                    ),
                decreases self.kinds@.len() - ki,
            {
                let kind = self.kinds[ki];
                let vars = variants(&kind);
                let mut entries: StatusEntries = Vec::new();
                let mut vi: usize = 0;
                proof {
                    assert(entry_views(entries@) =~= spec_group_entries(
                        self.records@,
                        p,
                        kind,
                        spec_variants(kind).take(0),
                    ));
                }
                while vi < vars.len()
                    invariant
                        vi <= vars@.len(),
                        vars@ == spec_variants(kind),
                        entry_views(entries@) == spec_group_entries(
                            self.records@,
                            p,
                            kind,
                            spec_variants(kind).take(vi as int),
                        ),
                    decreases vars@.len() - vi,
                {
                    let path = vars[vi];
                    let ghost old_entries = entries@;
                    match find_status(&self.records, &p, &kind, &path) {
                        Some(status) => {
                            let structured = StructuredStatus::from(status);
                            entries.push(
                                (
                                    String::from_str(path.label()),
                                    (
                                        String::from_str("status"),
                                        String::from_str(structured.status.label()),
                                    ),
                                ),
                            );
                            proof {
                                assert(entry_views(entries@) =~= entry_views(old_entries).push(
                                    (path.spec_label(), ("status"@, status.spec_label())),
                                ));
                            }
                        },
                        None => {},
                    }
                    vi += 1;
                    proof {
                        let s = spec_variants(kind).take(vi as int);
                        assert(s.drop_last() =~= spec_variants(kind).take(vi - 1));
                        assert(s.last() == spec_variants(kind)[vi - 1]);
                        assert(entry_views(entries@) =~= spec_group_entries(
                            self.records@,
                            p,
                            kind,
                            s,
                        ));
                    }
                }
                proof {
                    assert(spec_variants(kind).take(vars@.len() as int) =~= spec_variants(kind));
                }
                let ghost old_cats = cats@;
                let ghost ev = entry_views(entries@);
                cats.push((String::from_str(kind.label()), entries));
                ki += 1;
                proof {
                    assert(category_views(cats@) =~= category_views(old_cats).push(
                        (kind.spec_label(), ev),
                    ));
                    let s = self.kinds@.take(ki as int);
                    assert(s.drop_last() =~= self.kinds@.take(ki - 1));
                    assert(s.last() == self.kinds@[ki - 1]);
                    assert(category_views(cats@) =~= spec_category_groups(self.records@, p, s));
                }
            }
            proof {
                assert(self.kinds@.take(self.kinds@.len() as int) =~= self.kinds@);
            }
            let ghost old_groups = groups@;
            let ghost cv = category_views(cats@);
            groups.push((String::from_str(p.label()), cats));
            pi += 1;
            proof {
                assert(group_views(groups@) =~= group_views(old_groups).push(
                    (p.spec_label(), cv),
                ));
                let s = self.platforms@.take(pi as int);
                assert(s.drop_last() =~= self.platforms@.take(pi - 1));
                assert(s.last() == self.platforms@[pi - 1]);
                assert(group_views(groups@) =~= spec_grouped(self.records@, s, self.kinds@));
            }
        }
        proof {
            assert(self.platforms@.take(self.platforms@.len() as int) =~= self.platforms@);
        }
        groups
    }

    /// Renders the report in the requested format: deterministic sorted
    /// text, or a structured document of the grouped rows — exactly those
    /// `grouped` states — whose member order is the process's own map
    /// iteration order.  Every format succeeds.
    pub fn render(&self, format: &Format) -> (r: Result<String, Error>)
        ensures
            *format == Format::Text ==> (r matches Ok(t) && t@ == spec_render_text(
                self.records@,
            )),
            r is Ok,
    {
        match format {
            Format::Text => Ok(self.render_text()),
            Format::Json => match report_json(&self.grouped()) {
                Some(s) => Ok(s),
                None => Err(Error::JsonError),
            },
            Format::JsonPretty => match report_json_pretty(&self.grouped()) {
                Some(s) => Ok(s),
                None => Err(Error::JsonError),
            },
            Format::Yaml => match report_yaml(&self.grouped()) {
                Some(s) => Ok(s),
                None => Err(Error::YamlError),
            },
        }
    }
}

/// Text rendering is stable under reordering of the records: two reports
/// that hold the same records, in any order, render to the same text.
pub proof fn lemma_render_text_stable(r1: Seq<InfoRecord>, r2: Seq<InfoRecord>)
    requires
        r1.to_multiset() == r2.to_multiset(),
    ensures
        spec_render_text(r1) == spec_render_text(r2),
{
    lemma_lines_multiset(r1, r2);
    lemma_lex_total_ordering();
    spec_lines(r1).lemma_sort_by_ensures(lex_fn());
    spec_lines(r2).lemma_sort_by_ensures(lex_fn());
    lemma_sorted_unique(
        spec_lines(r1).sort_by(lex_fn()),
        spec_lines(r2).sort_by(lex_fn()),
        lex_fn(),
    );
}

} // verus!
