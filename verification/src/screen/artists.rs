//! The artists screen: a table of every artist on the server, with a cover
//! picture per artist that is fetched on its own once the list is in.
//!
//! `C` is the client the runtime talks to the server with; `H` is the image
//! handle that a fetched cover becomes. The handle is made once, when the
//! cover arrives, and kept in the row.
use crate::decimal::{
    decimal, is_digit, lemma_decimal_reads_back, signed_decimal, signed_decimal_string, value_of,
};
use crate::{Action, Never, Screen};
use std::sync::Arc;
use vstd::prelude::*;
use vstd::string::*;

verus! {

/// Pixel size requested from the server (2x the display size for HiDPI).
///
/// The server returns a downsized image, which keeps the download, decode and
/// GPU upload small.
pub const COVER_PX: i32 = 96;

/// An artist as the server lists it.
#[derive(Debug, Clone)]
pub struct Artist {
    pub id: String,
    pub name: String,
    /// The id of the artist's cover art, when there is one.
    pub cover_art: Option<String>,
    /// The number of albums, when the server tells it.
    pub album_count: Option<i64>,
}

/// Where a row's cover picture stands.
#[derive(Debug, Clone)]
pub enum CoverState<H> {
    NotLoaded,
    Loading,
    /// The handle is built once when the bytes arrive and reused on every
    /// frame; building it while drawing would defeat the image cache.
    Loaded(H),
    Failed,
}

/// One line of the table.
#[derive(Debug, Clone)]
pub struct Row<H> {
    pub artist: Artist,
    pub cover: CoverState<H>,
}

/// A request for the cover of the artist with id `id`, at `size` pixels.
#[derive(Debug, Clone)]
pub struct CoverFetch {
    pub id: String,
    pub size: i32,
}

/// The work that the artists screen asks for.
#[derive(Debug, Clone)]
pub enum Task {
    /// List every artist of the server.
    LoadArtists,
    /// Fetch these covers, all at once.
    FetchCovers(Vec<CoverFetch>),
}

/// That work as the model sees it.
pub enum TaskView {
    LoadArtists,
    FetchCovers(Seq<CoverFetch>),
}

impl View for Task {
    type V = TaskView;

    open spec fn view(&self) -> TaskView {
        match self {
            Task::LoadArtists => TaskView::LoadArtists,
            Task::FetchCovers(fetches) => TaskView::FetchCovers(fetches@),
        }
    }
}

/// The messages of the artists screen.
#[derive(Debug, Clone)]
pub enum Msg<H> {
    ArtistsLoaded(Vec<Artist>),
    ArtistsLoadFailed,
    ArtistClicked(String),
    /// The cover of the artist with this id came back: its handle, or an error.
    CoverLoaded(String, Result<H, ()>),
    PlayShuffled(String),
}

/// The state of the artists screen.
#[derive(Debug, Clone)]
pub struct State<C, H> {
    client: Arc<C>,
    rows: Vec<Row<H>>,
}

/// The artists screen as the model sees it.
pub struct ArtistsView<C, H> {
    pub client: C,
    pub rows: Seq<Row<H>>,
}

impl<C, H> View for State<C, H> {
    type V = ArtistsView<C, H>;

    closed spec fn view(&self) -> ArtistsView<C, H> {
        ArtistsView { client: *self.client, rows: self.rows@ }
    }
}

/// The row that a freshly listed artist gets: its cover is being fetched
/// when it has one, and is never fetched otherwise.
pub open spec fn row_for<H>(artist: Artist) -> Row<H> {
    Row {
        artist,
        cover: if artist.cover_art is Some {
            CoverState::Loading
        } else {
            CoverState::NotLoaded
        },
    }
}

/// The rows of a freshly listed sequence of artists, in the same order.
pub open spec fn rows_for<H>(artists: Seq<Artist>) -> Seq<Row<H>> {
    artists.map_values(|a: Artist| row_for::<H>(a))
}

/// The covers to fetch for a sequence of artists: one per artist that has
/// cover art, by the artist's id, in the order of the artists.
pub open spec fn cover_fetches(artists: Seq<Artist>) -> Seq<CoverFetch>
    decreases artists.len(),
{
    if artists.len() == 0 {
        Seq::empty()
    } else {
        let before = cover_fetches(artists.drop_last());
        if artists.last().cover_art is Some {
            before.push(CoverFetch { id: artists.last().id, size: COVER_PX })
        } else {
            before
        }
    }
}

/// `i` is the first row whose artist has the id `id`.
pub open spec fn is_first_with_id<H>(rows: Seq<Row<H>>, id: Seq<char>, i: int) -> bool {
    &&& 0 <= i < rows.len()
    &&& rows[i].artist.id@ == id
    &&& forall|j: int| 0 <= j < i ==> rows[j].artist.id@ != id
}

/// The first row whose artist has the id `id`, if any.
pub open spec fn first_with_id<H>(rows: Seq<Row<H>>, id: Seq<char>) -> Option<int> {
    if exists|i: int| is_first_with_id(rows, id, i) {
        Some(choose|i: int| is_first_with_id(rows, id, i))
    } else {
        None
    }
}

/// What a fetched cover makes of a row's cover.
pub open spec fn cover_after<H>(result: Result<H, ()>) -> CoverState<H> {
    match result {
        Ok(handle) => CoverState::Loaded(handle),
        Err(_) => CoverState::Failed,
    }
}

/// The screen that `init` makes for the client `client`: no rows yet.
pub open spec fn init_model<C, H>(client: C) -> ArtistsView<C, H> {
    ArtistsView { client, rows: Seq::empty() }
}

/// The screen after `msg`, and what it asks for.
pub open spec fn update_model<C, H>(s: ArtistsView<C, H>, msg: Msg<H>) -> (
    ArtistsView<C, H>,
    Action<TaskView, Never>,
) {
    match msg {
        Msg::ArtistsLoaded(artists) => (
            ArtistsView { rows: rows_for::<H>(artists@), ..s },
            if cover_fetches(artists@).len() == 0 {
                Action::Nothing
            } else {
                Action::Task(TaskView::FetchCovers(cover_fetches(artists@)))
            },
        ),
        Msg::CoverLoaded(id, result) => match first_with_id(s.rows, id@) {
            Some(i) => (
                ArtistsView {
                    rows: s.rows.update(
                        i,
                        Row { artist: s.rows[i].artist, cover: cover_after(result) },
                    ),
                    ..s
                },
                Action::Nothing,
            ),
            None => (s, Action::Nothing),
        },
        _ => (s, Action::Nothing),
    }
}

/// The text of the album count column: the count, or a dash when the
/// server does not tell it.
pub open spec fn album_count_text(count: Option<i64>) -> Seq<char> {
    match count {
        Some(n) => signed_decimal(n as int),
        None => seq!['–'],
    }
}

/// The covers requested for rows whose cover is being fetched: one per such
/// row, by the row's artist id, in the order of the rows.
pub open spec fn loading_fetches<H>(rows: Seq<Row<H>>) -> Seq<CoverFetch>
    decreases rows.len(),
{
    if rows.len() == 0 {
        Seq::empty()
    } else {
        let before = loading_fetches(rows.drop_last());
        if rows.last().cover is Loading {
            before.push(CoverFetch { id: rows.last().artist.id, size: COVER_PX })
        } else {
            before
        }
    }
}

/// Listing artists gives one row per artist, in order, whose cover is being
/// fetched exactly when the artist has cover art; and the covers requested
/// are exactly those of the rows being fetched, one each, in row order.
pub proof fn lemma_one_fetch_per_loading_row<H>(artists: Seq<Artist>)
    ensures
        rows_for::<H>(artists).len() == artists.len(),
        forall|i: int|
            0 <= i < artists.len() ==> (#[trigger] rows_for::<H>(artists)[i]).artist == artists[i]
                && (rows_for::<H>(artists)[i].cover is Loading <==> artists[i].cover_art is Some),
        cover_fetches(artists) == loading_fetches(rows_for::<H>(artists)),
    decreases artists.len(),
{
    if artists.len() > 0 {
        lemma_one_fetch_per_loading_row::<H>(artists.drop_last());
        assert(rows_for::<H>(artists).drop_last() =~= rows_for::<H>(artists.drop_last()));
    }
}

/// The cover request for a row: its artist's id, at `COVER_PX` pixels.
pub open spec fn fetch_of<H>(row: Row<H>) -> CoverFetch {
    CoverFetch { id: row.artist.id, size: COVER_PX }
}

/// The `i`-th of `rows` is being fetched and its request is in `fs`.
pub open spec fn row_requested<H>(rows: Seq<Row<H>>, fs: Seq<CoverFetch>, i: int) -> bool {
    exists|k: int| 0 <= k < fs.len() && fs[k] == fetch_of(rows[i])
}

/// The `k`-th request of `fs` is that of a row of `rows` being fetched.
pub open spec fn request_of_loading_row<H>(rows: Seq<Row<H>>, fs: Seq<CoverFetch>, k: int) -> bool {
    exists|i: int| 0 <= i < rows.len() && rows[i].cover is Loading && fs[k] == fetch_of(rows[i])
}

/// Every row whose cover is being fetched has its request among
/// `loading_fetches`, and every request there is that of such a row.
pub proof fn lemma_loading_fetches_members<H>(rows: Seq<Row<H>>)
    ensures
        forall|i: int|
            0 <= i < rows.len() && rows[i].cover is Loading ==> #[trigger] row_requested(
                rows,
                loading_fetches(rows),
                i,
            ),
        forall|k: int|
            0 <= k < loading_fetches(rows).len() ==> #[trigger] request_of_loading_row(
                rows,
                loading_fetches(rows),
                k,
            ),
    decreases rows.len(),
{
    if rows.len() > 0 {
        let init = rows.drop_last();
        lemma_loading_fetches_members(init);
        let before = loading_fetches(init);
        let after = loading_fetches(rows);
        assert forall|i: int| 0 <= i < rows.len() && rows[i].cover is Loading implies #[trigger] row_requested(
            rows,
            after,
            i,
        ) by {
            if i < rows.len() - 1 {
                assert(rows[i] == init[i]);
                assert(row_requested(init, before, i));
                let k = choose|k: int| 0 <= k < before.len() && before[k] == fetch_of(init[i]);
                assert(after[k] == before[k]);
            } else {
                assert(after[before.len() as int] == fetch_of(rows[i]));
            }
        }
        assert forall|k: int| 0 <= k < after.len() implies #[trigger] request_of_loading_row(
            rows,
            after,
            k,
        ) by {
            if k < before.len() {
                assert(request_of_loading_row(init, before, k));
                let i = choose|i: int| 0 <= i < init.len() && init[i].cover is Loading && before[k] == fetch_of(init[i]);
                assert(rows[i] == init[i]);
                assert(after[k] == before[k]);
            } else {
                assert(rows[rows.len() - 1].cover is Loading);
                assert(after[k] == fetch_of(rows[rows.len() - 1]));
            }
        }
    }
}

/// Listing artists on the artists screen: one row per artist, in order,
/// with the same artist, shown as Loading exactly when the artist has cover
/// art (and NotLoaded otherwise). Nothing is asked when no artist has cover
/// art; otherwise one batch of cover requests is asked: the requests of the
/// Loading rows, in row order, each by the row's artist id at `COVER_PX`, so
/// that every Loading row's cover is requested and nothing else is.
pub proof fn lemma_listing_requests_every_cover<C, H>(s: ArtistsView<C, H>, artists: Vec<Artist>)
    ensures
        ({
            let (t, a) = update_model(s, Msg::ArtistsLoaded(artists));
            &&& t.client == s.client
            &&& t.rows.len() == artists@.len()
            &&& forall|i: int|
                0 <= i < artists@.len() ==> {
                    &&& (#[trigger] t.rows[i]).artist == artists@[i]
                    &&& (t.rows[i].cover is Loading <==> artists@[i].cover_art is Some)
                    &&& (t.rows[i].cover is NotLoaded <==> artists@[i].cover_art is None)
                }
            &&& (forall|i: int| 0 <= i < artists@.len() ==> (#[trigger] artists@[i]).cover_art is None)
                ==> a is Nothing
            &&& (exists|i: int| 0 <= i < artists@.len() && (#[trigger] artists@[i]).cover_art is Some)
                ==> (a matches Action::Task(TaskView::FetchCovers(fs)) && fs == loading_fetches(t.rows)
                && (forall|i: int|
                0 <= i < t.rows.len() && t.rows[i].cover is Loading ==> #[trigger] row_requested(
                    t.rows,
                    fs,
                    i,
                )) && (forall|k: int|
                0 <= k < fs.len() ==> #[trigger] request_of_loading_row(t.rows, fs, k)))
        }),
{
    let rows = rows_for::<H>(artists@);
    lemma_one_fetch_per_loading_row::<H>(artists@);
    lemma_loading_fetches_members(rows);
    let fs = cover_fetches(artists@);
    if exists|i: int| 0 <= i < artists@.len() && (#[trigger] artists@[i]).cover_art is Some {
        let i = choose|i: int| 0 <= i < artists@.len() && (#[trigger] artists@[i]).cover_art is Some;
        assert(rows[i].cover is Loading);
        assert(row_requested(rows, loading_fetches(rows), i));
        assert(fs.len() > 0);
    } else {
        if fs.len() > 0 {
            assert(request_of_loading_row(rows, loading_fetches(rows), 0));
            let i = choose|i: int| 0 <= i < rows.len() && rows[i].cover is Loading && loading_fetches(rows)[0] == fetch_of(rows[i]);
            assert(artists@[i].cover_art is Some);
        }
    }
}

/// The album count text reads back as the count: for a count of zero or more
/// it is made of decimal digits, starts with `0` only for zero, and denotes
/// the count; for a negative count it is `-` followed by such digits for
/// its magnitude; without a count it is a dash.
pub proof fn lemma_album_count_reads_back(n: i64)
    ensures
        album_count_text(None) == seq!['–'],
        n >= 0 ==> {
            let text = album_count_text(Some(n));
            &&& text.len() >= 1
            &&& forall|i: int| 0 <= i < text.len() ==> is_digit(#[trigger] text[i])
            &&& (text[0] == '0' ==> n == 0)
            &&& value_of(text) == n
        },
        n < 0 ==> {
            let text = album_count_text(Some(n));
            &&& text.len() >= 2
            &&& text[0] == '-'
            &&& forall|i: int| 1 <= i < text.len() ==> is_digit(#[trigger] text[i])
            &&& value_of(text.drop_first()) == -n
        },
{
    if n >= 0 {
        lemma_decimal_reads_back(n as nat);
    } else {
        lemma_decimal_reads_back((-n) as nat);
        let d = decimal((-n) as nat);
        assert((seq!['-'] + d).drop_first() =~= d);
        assert(forall|i: int| 1 <= i < d.len() + 1 ==> (seq!['-'] + d)[i] == d[i - 1]);
    }
}

/// Only a new listing changes which artists the table shows: every other
/// message keeps the client, the number of rows and the artist of each row,
/// and asks for nothing.
pub proof fn lemma_only_listing_changes_artists<C, H>(s: ArtistsView<C, H>, msg: Msg<H>)
    requires
        !(msg is ArtistsLoaded),
    ensures
        ({
            let (t, a) = update_model(s, msg);
            &&& t.client == s.client
            &&& t.rows.len() == s.rows.len()
            &&& forall|i: int| 0 <= i < s.rows.len() ==> (#[trigger] t.rows[i]).artist == s.rows[i].artist
            &&& a is Nothing
        }),
{
    if let Msg::CoverLoaded(id, result) = msg {
        if let Some(i) = first_with_id(s.rows, id@) {
            assert(is_first_with_id(s.rows, id@, i));
        }
    }
}

/// A cover that comes back goes to the first row with that artist id, and
/// to no other row; a cover for an id that no row has changes nothing.
pub proof fn lemma_cover_goes_to_its_row<C, H>(s: ArtistsView<C, H>, id: String, result: Result<H, ()>)
    ensures
        ({
            let (t, _) = update_model(s, Msg::CoverLoaded(id, result));
            match first_with_id(s.rows, id@) {
                Some(i) => {
                    &&& 0 <= i < s.rows.len()
                    &&& s.rows[i].artist.id@ == id@
                    &&& t.rows[i].cover == cover_after(result)
                    &&& forall|j: int| 0 <= j < s.rows.len() && j != i ==> (#[trigger] t.rows[j]) == s.rows[j]
                },
                None => {
                    &&& t == s
                    &&& forall|j: int| 0 <= j < s.rows.len() ==> (#[trigger] s.rows[j]).artist.id@ != id@
                },
            }
        }),
{
    match first_with_id(s.rows, id@) {
        Some(i) => {
            assert(is_first_with_id(s.rows, id@, i));
        },
        None => {
            assert forall|j: int| 0 <= j < s.rows.len() implies (#[trigger] s.rows[j]).artist.id@ != id@ by {
                if s.rows[j].artist.id@ == id@ {
                    lemma_some_first_with_id(s.rows, id@, j);
                }
            }
        },
    }
}

/// When some row has the id, there is a first one.
pub proof fn lemma_some_first_with_id<H>(rows: Seq<Row<H>>, id: Seq<char>, j: int)
    requires
        0 <= j < rows.len(),
        rows[j].artist.id@ == id,
    ensures
        first_with_id(rows, id) is Some,
    decreases j,
{
    if exists|k: int| 0 <= k < j && rows[k].artist.id@ == id {
        let k = choose|k: int| 0 <= k < j && rows[k].artist.id@ == id;
        lemma_some_first_with_id(rows, id, k);
    } else {
        assert(is_first_with_id(rows, id, j));
    }
}

/// The first artist with the id `id` is unique.
pub proof fn lemma_first_with_id_unique<H>(rows: Seq<Row<H>>, id: Seq<char>, i: int)
    requires
        is_first_with_id(rows, id, i),
    ensures
        first_with_id(rows, id) == Some(i),
{
    let k = choose|k: int| is_first_with_id(rows, id, k);
    assert(is_first_with_id(rows, id, k));
    if k < i {
        assert(rows[k].artist.id@ != id);
    }
    if i < k {
        assert(rows[i].artist.id@ != id);
    }
}

/// The message that listing the artists ends with: the artists of every
/// index group, in order, or a failure.
pub fn artists_outcome<H>(index: Option<Vec<Vec<Artist>>>) -> (r: Msg<H>)
    ensures
        index matches Some(groups) ==> r matches Msg::ArtistsLoaded(artists) && artists@
            == groups@.map_values(|g: Vec<Artist>| g@).flatten(),
        index is None ==> r is ArtistsLoadFailed,
{
    match index {
        Some(groups) => Msg::ArtistsLoaded(flatten_groups(groups)),
        None => Msg::ArtistsLoadFailed,
    }
}

/// The artists of all groups, group after group.
pub fn flatten_groups(groups: Vec<Vec<Artist>>) -> (r: Vec<Artist>)
    ensures
        r@ == groups@.map_values(|g: Vec<Artist>| g@).flatten(),
{
    let ghost all = groups@;
    let mut out: Vec<Artist> = Vec::new();
    for group in it: groups.into_iter()
        invariant
            it.seq() == all,
            out@ == all.take(it.index() as int).map_values(|g: Vec<Artist>| g@).flatten(),
    {
        let ghost i = it.index() as int;
        let mut group = group;
        let ghost before = out@;
        out.append(&mut group);
        proof {
            let f = |g: Vec<Artist>| g@;
            assert(all.take(i + 1) =~= all.take(i).push(all[i]));
            assert(all.take(i + 1).map_values(f) =~= all.take(i).map_values(f).push(all[i]@));
            all.take(i).map_values(f).lemma_flatten_push(all[i]@);
        }
    }
    proof {
        assert(all.take(all.len() as int) =~= all);
    }
    out
}

/// The text of the album count column for `artist`.
pub fn album_count(artist: &Artist) -> (r: String)
    ensures
        r@ == album_count_text(artist.album_count),
{
    match artist.album_count {
        Some(n) => signed_decimal_string(n),
        None => {
            proof {
                reveal_strlit("–");
            }
            String::from_str("–")
        },
    }
}

impl<C, H> Screen for State<C, H> {
    type Msg = Msg<H>;

    type Emit = Never;

    type InitData = Arc<C>;

    type Work = Task;

    /// Starts with no rows and asks for the list of artists.
    fn init(client: Arc<C>) -> (r: (Self, Action<Task, Never>))
        ensures
            r.0@ == init_model::<C, H>(*client),
            r.1 == Action::<Task, Never>::Task(Task::LoadArtists),
    {
        (State { rows: Vec::new(), client }, Action::task(Task::LoadArtists))
    }

    fn update(&mut self, msg: Msg<H>) -> (r: Action<Task, Never>)
        ensures
            (final(self)@, r@) == update_model(old(self)@, msg),
    {
        match msg {
            Msg::ArtistsLoaded(artists) => {
                let ghost all = artists@;
                let mut rows: Vec<Row<H>> = Vec::with_capacity(artists.len());
                let mut fetches: Vec<CoverFetch> = Vec::new();
                for artist in it: artists.into_iter()
                    invariant
                        it.seq() == all,
                        rows@ == rows_for::<H>(all.take(it.index() as int)),
                        fetches@ == cover_fetches(all.take(it.index() as int)),
                {
                    let ghost i = it.index() as int;
                    let has_cover = artist.cover_art.is_some();
                    if has_cover {
                        fetches.push(CoverFetch { id: artist.id.clone(), size: COVER_PX });
                    }
                    let cover = if has_cover {
                        CoverState::Loading
                    } else {
                        CoverState::NotLoaded
                    };
                    rows.push(Row { artist, cover });
                    proof {
                        assert(all.take(i + 1) =~= all.take(i).push(all[i]));
                        assert(all.take(i + 1).drop_last() =~= all.take(i));
                        assert(rows@ =~= rows_for::<H>(all.take(i + 1)));
                    }
                }
                proof {
                    assert(all.take(all.len() as int) =~= all);
                }
                self.rows = rows;
                if fetches.len() == 0 {
                    Action::none()
                } else {
                    Action::task(Task::FetchCovers(fetches))
                }
            },
            Msg::ArtistsLoadFailed => Action::none(),
            Msg::ArtistClicked(_id) => Action::none(),
            Msg::CoverLoaded(id, result) => {
                let found = self.find_row(&id);
                match found {
                    Some(i) => {
                        let cover = match result {
                            Ok(handle) => CoverState::Loaded(handle),
                            Err(_) => CoverState::Failed,
                        };
                        self.rows[i].cover = cover;
                        Action::none()
                    },
                    None => Action::none(),
                }
            },
            Msg::PlayShuffled(_id) => Action::none(),
        }
    }
}

impl<C, H> State<C, H> {


    /// The index of the first row whose artist has the id `id`.
    pub fn find_row(&self, id: &String) -> (r: Option<usize>)
        ensures
            r matches Some(i) ==> first_with_id(self@.rows, id@) == Some(i as int),
            r is None ==> first_with_id(self@.rows, id@) is None,
    {
        let mut i: usize = 0;
        while i < self.rows.len()
            invariant
                i <= self.rows@.len(),
                forall|j: int| 0 <= j < i ==> self.rows@[j].artist.id@ != id@,
            decreases self.rows@.len() - i,
        {
            if self.rows[i].artist.id == *id {
                proof {
                    lemma_first_with_id_unique(self@.rows, id@, i as int);
                }
                return Some(i);
            }
            i = i + 1;
        }
        None
    }

    pub fn rows(&self) -> (r: &Vec<Row<H>>)
        ensures
            r@ == self@.rows,
    {
        &self.rows
    }

    pub fn client(&self) -> (r: &Arc<C>)
        ensures
            **r == self@.client,
    {
        &self.client
    }
}

} // verus!
