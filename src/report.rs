use vstd::prelude::*;
use vstd::string::*;

verus! {

/// What is printed when there is no media information to show.
pub open spec fn placeholder() -> Seq<char> {
    "No media information available."@
}

/// The five fields joined by `|`.
pub open spec fn record_line(
    title: Seq<char>,
    artist: Seq<char>,
    album: Seq<char>,
    thumb: Seq<char>,
    app: Seq<char>,
) -> Seq<char> {
    title + "|"@ + artist + "|"@ + album + "|"@ + thumb + "|"@ + app
}

/// Whether every one of the five fields is empty.
pub open spec fn all_empty(
    title: Seq<char>,
    artist: Seq<char>,
    album: Seq<char>,
    thumb: Seq<char>,
    app: Seq<char>,
) -> bool {
    title.len() == 0 && artist.len() == 0 && album.len() == 0 && thumb.len() == 0 && app.len() == 0
}

/// The text printed for a record: the placeholder when all fields are empty,
/// the joined line otherwise.
pub open spec fn rendered(
    title: Seq<char>,
    artist: Seq<char>,
    album: Seq<char>,
    thumb: Seq<char>,
    app: Seq<char>,
) -> Seq<char> {
    if all_empty(title, artist, album, thumb, app) {
        placeholder()
    } else {
        record_line(title, artist, album, thumb, app)
    }
}

/// Number of `|` characters in `s`.
pub open spec fn bar_count(s: Seq<char>) -> nat
    decreases s.len(),
{
    if s.len() == 0 {
        0
    } else {
        bar_count(s.drop_last()) + if s.last() == '|' {
            1nat
        } else {
            0nat
        }
    }
}

/// Whether `s` holds no `|`.
pub open spec fn bar_free(s: Seq<char>) -> bool {
    forall|i: int| 0 <= i < s.len() ==> s[i] != '|'
}

/// The metadata of one media session, ready to be printed.
pub struct MediaRecord {
    pub title: String,
    pub artist: String,
    pub album: String,
    pub thumb_url: String,
    pub source_app: String,
}

impl MediaRecord {
    /// The text that `render` produces for this record.
    pub open spec fn line(&self) -> Seq<char> {
        rendered(self.title@, self.artist@, self.album@, self.thumb_url@, self.source_app@)
    }

    /// Whether all five fields are empty.
    pub fn is_empty(&self) -> (r: bool)
        ensures
            r == all_empty(
                self.title@,
                self.artist@,
                self.album@,
                self.thumb_url@,
                self.source_app@,
            ),
    {
        self.title.as_str().is_empty() && self.artist.as_str().is_empty()
            && self.album.as_str().is_empty() && self.thumb_url.as_str().is_empty()
            && self.source_app.as_str().is_empty()
    }

    /// Formats the record as `title|artist|album|thumb_url|source_app`, or as
    /// the placeholder when every field is empty.
    pub fn render(&self) -> (r: String)
        ensures
            r@ == self.line(),
    {
        if self.is_empty() {
            String::from_str("No media information available.")
        } else {
            let mut s = self.title.clone();
            s.append("|");
            s.append(self.artist.as_str());
            s.append("|");
            s.append(self.album.as_str());
            s.append("|");
            s.append(self.thumb_url.as_str());
            s.append("|");
            s.append(self.source_app.as_str());
            s
        }
    }
}

/// Counting `|` distributes over concatenation.
pub proof fn lemma_bar_count_concat(a: Seq<char>, b: Seq<char>)
    ensures
        bar_count(a + b) == bar_count(a) + bar_count(b),
    decreases b.len(),
{
    if b.len() == 0 {
        assert(a + b =~= a);
    } else {
        lemma_bar_count_concat(a, b.drop_last());
        assert((a + b).drop_last() =~= a + b.drop_last());
    }
}

/// A text without `|` counts none.
pub proof fn lemma_bar_free_count(s: Seq<char>)
    requires
        bar_free(s),
    ensures
        bar_count(s) == 0,
    decreases s.len(),
{
    if s.len() > 0 {
        lemma_bar_free_count(s.drop_last());
    }
}

proof fn lemma_separator()
    ensures
        bar_count("|"@) == 1,
{
    reveal_strlit("|");
    let s = "|"@;
    assert(s.len() == 1 && s.last() == '|');
    assert(s.drop_last() =~= Seq::<char>::empty());
    assert(bar_count(s.drop_last()) == 0);
}

/// The joined line holds the four separators on top of what the fields hold.
pub proof fn lemma_record_bars(
    title: Seq<char>,
    artist: Seq<char>,
    album: Seq<char>,
    thumb: Seq<char>,
    app: Seq<char>,
)
    ensures
        bar_count(record_line(title, artist, album, thumb, app)) == bar_count(title) + bar_count(
            artist,
        ) + bar_count(album) + bar_count(thumb) + bar_count(app) + 4,
{
    let bar = "|"@;
    lemma_separator();
    lemma_bar_count_concat(title, bar);
    lemma_bar_count_concat(title + bar, artist);
    lemma_bar_count_concat(title + bar + artist, bar);
    lemma_bar_count_concat(title + bar + artist + bar, album);
    lemma_bar_count_concat(title + bar + artist + bar + album, bar);
    lemma_bar_count_concat(title + bar + artist + bar + album + bar, thumb);
    lemma_bar_count_concat(title + bar + artist + bar + album + bar + thumb, bar);
    lemma_bar_count_concat(title + bar + artist + bar + album + bar + thumb + bar, app);
}

/// The placeholder holds no `|`.
pub proof fn lemma_placeholder_bar_free()
    ensures
        bar_free(placeholder()),
        bar_count(placeholder()) == 0,
{
    reveal_strlit("No media information available.");
    lemma_bar_free_count(placeholder());
}

/// A non-placeholder line holds exactly four `|` when no field holds one.
pub proof fn lemma_line_shape(
    title: Seq<char>,
    artist: Seq<char>,
    album: Seq<char>,
    thumb: Seq<char>,
    app: Seq<char>,
)
    requires
        bar_free(title),
        bar_free(artist),
        bar_free(album),
        bar_free(thumb),
        bar_free(app),
        rendered(title, artist, album, thumb, app) != placeholder(),
    ensures
        bar_count(rendered(title, artist, album, thumb, app)) == 4,
{
    lemma_bar_free_count(title);
    lemma_bar_free_count(artist);
    lemma_bar_free_count(album);
    lemma_bar_free_count(thumb);
    lemma_bar_free_count(app);
    lemma_record_bars(title, artist, album, thumb, app);
}

/// The placeholder is printed exactly when all five fields are empty: no
/// record with a non-empty field renders as the placeholder.
pub proof fn lemma_placeholder_exclusive(
    title: Seq<char>,
    artist: Seq<char>,
    album: Seq<char>,
    thumb: Seq<char>,
    app: Seq<char>,
)
    ensures
        (rendered(title, artist, album, thumb, app) == placeholder()) == all_empty(
            title,
            artist,
            album,
            thumb,
            app,
        ),
{
    lemma_record_bars(title, artist, album, thumb, app);
    lemma_placeholder_bar_free();
}

} // verus!
