//! Version resolution and its on-disk cache.
//!
//! A release source is queried for its releases; for each release the one
//! installable asset is chosen — the *last* matching asset in the list
//! wins, an explicit tie-break — and releases without a matching asset are
//! dropped. Resolved version lists are cached per source with a
//! resolution timestamp; an entry younger than three hours is served
//! without a network call, anything older is re-resolved and atomically
//! replaces the prior entry for that source, leaving other sources
//! untouched. The network request, and the serialized encodings of the
//! response and the cache file, live outside the library.

use vstd::prelude::*;
use crate::strutil::has_sub;
use crate::strutil::str_contains;
use crate::strutil::str_eq;
use vstd::string::StringExecFns;

verus! {

/// One resolved, installable version of the game.
pub struct Version {
    /// The release's display name.
    pub name: String,
    /// Name of the chosen asset.
    pub asset_name: String,
    /// Where the chosen asset is downloaded from.
    pub asset_url: String,
    /// The asset's size in bytes, as the release index reported it.
    pub asset_size: i32,
}

/// Spec-level image of a `Version`.
pub struct VersionV {
    pub name: Seq<char>,
    pub asset_name: Seq<char>,
    pub asset_url: Seq<char>,
    pub asset_size: int,
}

impl View for Version {
    type V = VersionV;

    open spec fn view(&self) -> VersionV {
        VersionV {
            name: self.name@,
            asset_name: self.asset_name@,
            asset_url: self.asset_url@,
            asset_size: self.asset_size as int,
        }
    }
}

impl DeepView for Version {
    type V = VersionV;

    open spec fn deep_view(&self) -> VersionV {
        self.view()
    }
}

/// One downloadable asset of a release, as the release index reports it.
pub struct AssetRecord {
    pub name: String,
    pub browser_download_url: String,
    pub size: i32,
}

/// Spec-level image of an `AssetRecord`.
pub struct AssetV {
    pub name: Seq<char>,
    pub browser_download_url: Seq<char>,
    pub size: int,
}

impl View for AssetRecord {
    type V = AssetV;

    open spec fn view(&self) -> AssetV {
        AssetV {
            name: self.name@,
            browser_download_url: self.browser_download_url@,
            size: self.size as int,
        }
    }
}

impl DeepView for AssetRecord {
    type V = AssetV;

    open spec fn deep_view(&self) -> AssetV {
        self.view()
    }
}

/// One release of a source: a display name and its downloadable assets.
pub struct ReleaseRecord {
    pub name: String,
    pub assets: Vec<AssetRecord>,
}

/// Spec-level image of a `ReleaseRecord`.
pub struct ReleaseV {
    pub name: Seq<char>,
    pub assets: Seq<AssetV>,
}

impl View for ReleaseRecord {
    type V = ReleaseV;

    open spec fn view(&self) -> ReleaseV {
        ReleaseV { name: self.name@, assets: self.assets.deep_view() }
    }
}

impl DeepView for ReleaseRecord {
    type V = ReleaseV;

    open spec fn deep_view(&self) -> ReleaseV {
        self.view()
    }
}

/// The cached resolution for one source.
pub struct VersionCache {
    /// The release source the versions were resolved for; at most one
    /// entry per source exists in a cache table.
    pub source: String,
    pub versions: Vec<Version>,
    /// When the resolution happened, in seconds since the epoch (UTC).
    pub timestamp: i64,
}

/// Spec-level image of a `VersionCache` entry.
pub struct VersionCacheV {
    pub source: Seq<char>,
    pub versions: Seq<VersionV>,
    pub timestamp: int,
}

impl View for VersionCache {
    type V = VersionCacheV;

    open spec fn view(&self) -> VersionCacheV {
        VersionCacheV {
            source: self.source@,
            versions: self.versions.deep_view(),
            timestamp: self.timestamp as int,
        }
    }
}

impl DeepView for VersionCache {
    type V = VersionCacheV;

    open spec fn deep_view(&self) -> VersionCacheV {
        self.view()
    }
}

/// An asset is installable when its name is exactly the stock artifact
/// name, or carries the desktop-build marker.
pub open spec fn asset_matches(name: Seq<char>) -> bool {
    name == "Mindustry.jar"@ || has_sub(name, "Desktop"@)
}

/// Decides `asset_matches` for one asset name.
pub fn is_installable_asset(name: &str) -> (r: bool)
    ensures
        r == asset_matches(name@),
{
    if str_eq(name, "Mindustry.jar") {
        true
    } else {
        str_contains(name, "Desktop")
    }
}

/// Index of the last matching asset, or -1 when none matches.
pub open spec fn last_match(assets: Seq<AssetV>) -> int
    decreases assets.len(),
{
    if assets.len() == 0 {
        -1
    } else if asset_matches(assets.last().name) {
        assets.len() - 1
    } else {
        last_match(assets.drop_last())
    }
}

/// A release contributes a version exactly when some asset matches.
pub open spec fn has_matching_asset(assets: Seq<AssetV>) -> bool {
    last_match(assets) >= 0
}

/// The tie-break, stated in full: when any asset matches, `last_match`
/// is a matching index and every later index does not match — the last
/// match in iteration order wins, never the first. When none matches,
/// no index matches.
pub proof fn lemma_last_match_is_last(assets: Seq<AssetV>)
    ensures
        has_matching_asset(assets) ==> {
            &&& 0 <= last_match(assets) < assets.len()
            &&& asset_matches(assets[last_match(assets)].name)
            &&& forall|j: int|
                last_match(assets) < j < assets.len() ==> !asset_matches(
                    #[trigger] assets[j].name,
                )
        },
        !has_matching_asset(assets) ==> forall|j: int|
            0 <= j < assets.len() ==> !asset_matches(#[trigger] assets[j].name),
    decreases assets.len(),
{
    if assets.len() > 0 {
        let sub = assets.drop_last();
        let lm = last_match(assets);
        lemma_last_match_is_last(sub);
        if asset_matches(assets.last().name) {
            assert(assets[lm] == assets.last());
        } else {
            if has_matching_asset(sub) {
                assert(asset_matches(sub[lm].name));
                assert(sub[lm] == assets[lm]);
                assert forall|j: int| lm < j < assets.len() implies !asset_matches(
                    #[trigger] assets[j].name,
                ) by {
                    if j < assets.len() - 1 {
                        assert(sub[j] == assets[j]);
                        assert(!asset_matches(sub[j].name));
                    } else {
                        assert(assets[j] == assets.last());
                    }
                }
            } else {
                assert forall|j: int| 0 <= j < assets.len() implies !asset_matches(
                    #[trigger] assets[j].name,
                ) by {
                    if j < assets.len() - 1 {
                        assert(sub[j] == assets[j]);
                        assert(!asset_matches(sub[j].name));
                    } else {
                        assert(assets[j] == assets.last());
                    }
                }
            }
        }
    }
}

/// Picks the asset the resolver installs: the index of the last matching
/// asset, or `None` when the release has no matching asset.
pub fn select_asset(assets: &Vec<AssetRecord>) -> (r: Option<usize>)
    ensures
        match r {
            Some(i) => i < assets@.len() && i as int == last_match(assets.deep_view()),
            None => !has_matching_asset(assets.deep_view()),
        },
{
    let mut chosen: Option<usize> = None;
    let mut i: usize = 0;
    while i < assets.len()
        invariant
            i <= assets@.len(),
            match chosen {
                Some(c) => c < i && c as int == last_match(assets.deep_view().subrange(0, i as int)),
                None => last_match(assets.deep_view().subrange(0, i as int)) == -1,
            },
        decreases assets@.len() - i,
    {
        if is_installable_asset(assets[i].name.as_str()) {
            chosen = Some(i);
        }
        proof {
            let dv = assets.deep_view();
            assert(dv.subrange(0, i + 1).drop_last() =~= dv.subrange(0, i as int));
            assert(dv.subrange(0, i + 1).last() == dv[i as int]);
            assert(dv[i as int].name == assets@[i as int].name@);
        }
        i = i + 1;
    }
    proof {
        assert(assets.deep_view().subrange(0, assets@.len() as int) =~= assets.deep_view());
    }
    chosen
}

/// The version a release with a matching asset contributes: the release's
/// display name together with the chosen asset's name, URL and size.
pub open spec fn version_of(rel: ReleaseV) -> VersionV
    recommends
        has_matching_asset(rel.assets),
{
    let a = rel.assets[last_match(rel.assets)];
    VersionV {
        name: rel.name,
        asset_name: a.name,
        asset_url: a.browser_download_url,
        asset_size: a.size,
    }
}

/// The resolver's result: one version per release that has a matching
/// asset, in release order; releases without one are dropped entirely.
pub open spec fn resolve_spec(rels: Seq<ReleaseV>) -> Seq<VersionV>
    decreases rels.len(),
{
    if rels.len() == 0 {
        Seq::empty()
    } else {
        resolve_spec(rels.drop_last()) + (if has_matching_asset(rels.last().assets) {
            seq![version_of(rels.last())]
        } else {
            Seq::empty()
        })
    }
}

/// How many releases have a matching asset.
pub open spec fn matched_count(rels: Seq<ReleaseV>) -> int
    decreases rels.len(),
{
    if rels.len() == 0 {
        0
    } else {
        matched_count(rels.drop_last()) + (if has_matching_asset(rels.last().assets) {
            1int
        } else {
            0int
        })
    }
}

/// Releases with zero matching assets contribute nothing: of N releases,
/// M of which have a match, the result holds exactly M versions.
pub proof fn lemma_resolve_len(rels: Seq<ReleaseV>)
    ensures
        resolve_spec(rels).len() == matched_count(rels),
        0 <= matched_count(rels) <= rels.len(),
    decreases rels.len(),
{
    if rels.len() > 0 {
        lemma_resolve_len(rels.drop_last());
    }
}

/// Builds the version list for a list of releases, as `resolve_spec`
/// says: the last matching asset of each release wins, and releases
/// without a matching asset are dropped.
pub fn resolve_releases(releases: &Vec<ReleaseRecord>) -> (r: Vec<Version>)
    ensures
        r.deep_view() == resolve_spec(releases.deep_view()),
        r@.len() == matched_count(releases.deep_view()),
{
    let mut out: Vec<Version> = Vec::new();
    let mut i: usize = 0;
    while i < releases.len()
        invariant
            i <= releases@.len(),
            out.deep_view() == resolve_spec(releases.deep_view().subrange(0, i as int)),
            out@.len() == matched_count(releases.deep_view().subrange(0, i as int)),
        decreases releases@.len() - i,
    {
        let release = &releases[i];
        match select_asset(&release.assets) {
            Some(a) => {
                let asset = &release.assets[a];
                out.push(
                    Version {
                        name: release.name.clone(),
                        asset_name: asset.name.clone(),
                        asset_url: asset.browser_download_url.clone(),
                        asset_size: asset.size,
                    },
                );
            },
            None => (),
        }
        proof {
            let dv = releases.deep_view();
            assert(dv.subrange(0, i + 1).drop_last() =~= dv.subrange(0, i as int));
            assert(dv.subrange(0, i + 1).last() == dv[i as int]);
            assert(dv[i as int] == releases@[i as int].deep_view());
            assert(out.deep_view() =~= resolve_spec(dv.subrange(0, i + 1)));
        }
        i = i + 1;
    }
    proof {
        let dv = releases.deep_view();
        assert(dv.subrange(0, dv.len() as int) =~= dv);
        lemma_resolve_len(dv);
    }
    out
}

/// The release-index query for `source`: up to 100 releases in one page.
pub open spec fn release_index_url_spec(source: Seq<char>) -> Seq<char> {
    "https://api.github.com/repos/"@ + source + "/releases?per_page=100"@
}

/// Builds the release-index URL for `source`.
pub fn release_index_url(source: &str) -> (r: String)
    ensures
        r@ == release_index_url_spec(source@),
{
    let s = "https://api.github.com/repos/".to_owned();
    let s = s.concat(source);
    let r = s.concat("/releases?per_page=100");
    proof {
        assert(r@ =~= release_index_url_spec(source@));
    }
    r
}

/// The fixed identifier the resolver presents to the release index.
pub fn client_identifier() -> (r: &'static str)
    ensures
        r@ == "minlaunch"@,
{
    "minlaunch"
}

/// Three hours, in seconds: how long a cache entry stays fresh.
pub open spec fn spec_cache_ttl_seconds() -> int {
    10800
}

/// A cache entry resolved at `resolved_at` is still fresh at `now`:
/// strictly less than three hours have passed. An entry exactly three
/// hours old is already stale.
pub open spec fn is_fresh(resolved_at: int, now: int) -> bool {
    now - resolved_at < spec_cache_ttl_seconds()
}

/// Decides `is_fresh` for one entry's timestamp.
pub fn entry_is_fresh(resolved_at: i64, now: i64) -> (r: bool)
    requires
        resolved_at >= 0,
        now >= 0,
    ensures
        r == is_fresh(resolved_at as int, now as int),
{
    now - resolved_at < 10800
}

/// Every timestamp in the table is a plausible epoch second.
pub open spec fn table_wf(t: Seq<VersionCacheV>) -> bool {
    forall|k: int| 0 <= k < t.len() ==> (#[trigger] t[k]).timestamp >= 0
}

/// Entry `k` of the table answers a lookup of `source` at `now`.
pub open spec fn fresh_hit(t: Seq<VersionCacheV>, source: Seq<char>, now: int, k: int) -> bool {
    t[k].source == source && is_fresh(t[k].timestamp, now)
}

/// Scans the cache table for `source`. `Some(i)` is the first entry that
/// matches `source` and is still fresh — its versions are served without
/// a network call. `None` means no fresh entry exists and the source must
/// be re-resolved.
pub fn cache_lookup(table: &Vec<VersionCache>, source: &str, now: i64) -> (r: Option<usize>)
    requires
        now >= 0,
        table_wf(table.deep_view()),
    ensures
        match r {
            Some(i) => {
                &&& i < table@.len()
                &&& fresh_hit(table.deep_view(), source@, now as int, i as int)
                &&& forall|k: int|
                    0 <= k < i ==> !fresh_hit(table.deep_view(), source@, now as int, k)
            },
            None => forall|k: int|
                0 <= k < table@.len() ==> !fresh_hit(table.deep_view(), source@, now as int, k),
        },
{
    let ghost dv = table.deep_view();
    let mut i: usize = 0;
    while i < table.len()
        invariant
            dv == table.deep_view(),
            now >= 0,
            table_wf(dv),
            i <= table@.len(),
            dv.len() == table@.len(),
            forall|k: int| 0 <= k < i ==> !fresh_hit(dv, source@, now as int, k),
        decreases table@.len() - i,
    {
        let entry = &table[i];
        proof {
            assert(dv[i as int] == table@[i as int].deep_view());
        }
        if str_eq(entry.source.as_str(), source) {
            if entry_is_fresh(entry.timestamp, now) {
                return Some(i);
            }
        }
        i = i + 1;
    }
    None
}

/// `t` with every entry for `source` removed, in the original order.
pub open spec fn without_source(t: Seq<VersionCacheV>, source: Seq<char>) -> Seq<VersionCacheV>
    decreases t.len(),
{
    if t.len() == 0 {
        t
    } else {
        without_source(t.drop_last(), source) + (if t.last().source == source {
            Seq::empty()
        } else {
            seq![t.last()]
        })
    }
}

/// Removing a source really removes it: no entry for `source` survives
/// `without_source`. Together with `replace_cache_entry`'s contract this
/// gives the cache invariant: after a re-resolution the table holds
/// exactly one entry for the re-resolved source — the appended one — and
/// the entries for other sources are kept unchanged and in order.
pub proof fn lemma_without_source_excludes(t: Seq<VersionCacheV>, source: Seq<char>)
    ensures
        forall|k: int|
            0 <= k < without_source(t, source).len() ==> (#[trigger] without_source(t, source)[k]).source
                != source,
    decreases t.len(),
{
    if t.len() > 0 {
        let sub = without_source(t.drop_last(), source);
        lemma_without_source_excludes(t.drop_last(), source);
        assert forall|k: int|
            0 <= k < without_source(t, source).len() implies (#[trigger] without_source(
            t,
            source,
        )[k]).source != source by {
            if k < sub.len() {
                assert(without_source(t, source)[k] == sub[k]);
            } else {
                assert(without_source(t, source)[k] == t.last());
            }
        }
    }
}

/// A re-resolution is immediately visible: in the table that
/// `replace_cache_entry` builds, the appended entry is a fresh hit for
/// its source, and no entry before it is — a lookup of the same source
/// serves exactly the new resolution.
pub proof fn lemma_replaced_entry_is_found(
    t: Seq<VersionCacheV>,
    source: Seq<char>,
    versions: Seq<VersionV>,
    now: int,
)
    requires
        now >= 0,
    ensures
        ({
            let t2 = without_source(t, source) + seq![
                VersionCacheV { source, versions, timestamp: now },
            ];
            &&& fresh_hit(t2, source, now, t2.len() - 1)
            &&& forall|k: int| 0 <= k < t2.len() - 1 ==> !fresh_hit(t2, source, now, k)
        }),
{
    let kept = without_source(t, source);
    let t2 = kept + seq![VersionCacheV { source, versions, timestamp: now }];
    lemma_without_source_excludes(t, source);
    assert(t2[t2.len() - 1].source == source);
    assert forall|k: int| 0 <= k < t2.len() - 1 implies !fresh_hit(t2, source, now, k) by {
        assert(t2[k] == kept[k]);
    }
}

/// Atomically replaces the cache entry for `source`: every prior entry
/// for it is removed, entries for other sources are kept in order, and
/// the new resolution is appended with its timestamp.
pub fn replace_cache_entry(
    table: Vec<VersionCache>,
    source: String,
    versions: Vec<Version>,
    now: i64,
) -> (r: Vec<VersionCache>)
    ensures
        r.deep_view() == without_source(table.deep_view(), source@) + seq![
            VersionCacheV { source: source@, versions: versions.deep_view(), timestamp: now as int },
        ],
{
    let ghost dv = table.deep_view();
    let ghost sourcev = source@;
    let ghost versionsv = versions.deep_view();
    let mut out: Vec<VersionCache> = Vec::new();
    let mut i: usize = 0;
    let len = table.len();
    let mut rest = table;
    // Consume from the front so each kept entry is moved, not copied.
    while i < len
        invariant
            dv.len() == len,
            i <= len,
            rest@.len() == len - i,
            forall|k: int| 0 <= k < rest@.len() ==> #[trigger] rest@[k].deep_view() == dv[i + k],
            out.deep_view() == without_source(dv.subrange(0, i as int), sourcev),
            sourcev == source@,
        decreases len - i,
    {
        let entry = rest.remove(0);
        proof {
            assert(entry.deep_view() == dv[i as int]);
        }
        if str_eq(entry.source.as_str(), source.as_str()) {
            // Drop the prior entry for this source.
        } else {
            out.push(entry);
        }
        proof {
            assert(dv.subrange(0, i + 1).drop_last() =~= dv.subrange(0, i as int));
            assert(dv.subrange(0, i + 1).last() == dv[i as int]);
            assert(out.deep_view() =~= without_source(dv.subrange(0, i + 1), sourcev));
        }
        i = i + 1;
    }
    out.push(VersionCache { source, versions, timestamp: now });
    proof {
        assert(dv.subrange(0, len as int) =~= dv);
        assert(out.deep_view() =~= without_source(dv, sourcev) + seq![
            VersionCacheV { source: sourcev, versions: versionsv, timestamp: now as int },
        ]);
    }
    out
}

} // verus!
