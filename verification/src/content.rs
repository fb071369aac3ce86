//! The content in which an impression appears.

use crate::data::{Data, DataView};
use crate::error::{DecodeError, DecodeErrorView};
use crate::field::{
    flag_is_read, flag_json, integer_is_read, integer_json, object_is_read, object_json,
    optional_flag, optional_integer, optional_object, optional_text, optional_texts,
    optional_with, optional_with_among, put_flag, put_integer, put_object, put_text, put_texts,
    text_is_read, text_json, texts_are_read, texts_json, Written,
};
use crate::item::{flag_rule, integer_rule, object_rule, text_rule, texts_rule};
use crate::json::{JsonView, Members, MembersView, MemberView};
use crate::record::{
    all_valid, optional_records, optional_records_are_valid, put_records, Record,
    records_are_read, records_are_valid, records_json, records_rule,
};
use vstd::prelude::*;

verus! {

/// This object describes the content in which the impression will appear,
/// which may be syndicated or non-syndicated content. This object may be
/// useful when syndicated content contains impressions and does not
/// necessarily match the publisher's general content. The exchange might or
/// might not have knowledge of the page where the content is running, as a
/// result of the syndication method. For example might be a video impression
/// embedded in an iframe on an unknown web property or device.
#[derive(Debug, PartialEq, Clone)]
pub struct Content {
    /// string.
    /// ID uniquely identifying the content.
    pub id: Option<String>,
    /// integer.
    /// Episode number.
    pub episode: Option<i32>,
    /// string.
    /// Content title. Video Examples: "Search Committee" (television), "A New
    /// Hope" (movie), or "Endgame" (made for web). Non-Video Example: "Why an
    /// Antarctic Glacier Is Melting So Quickly" (Time magazine article).
    pub title: Option<String>,
    /// string.
    /// Content series. Video Examples: "The Office" (television), "Star Wars"
    /// (movie), or "Arby 'N' The Chief" (made for web). Non-Video Example:
    /// "Ecocentric" (Time Magazine blog).
    pub series: Option<String>,
    /// string.
    /// Content season (e.g., "Season 3").
    pub season: Option<String>,
    /// string.
    /// Artist credited with the content.
    pub artist: Option<String>,
    /// string.
    /// Genre that best describes the content (e.g., rock, pop, etc).
    pub genre: Option<String>,
    /// string.
    /// Album to which the content belongs; typically for audio.
    pub album: Option<String>,
    /// string.
    /// International Standard Recording Code conforming to ISO-3901.
    pub isrc: Option<String>,
    /// object.
    /// Details about the content Producer.
    pub producer: Option<Members>,
    /// string.
    /// URL of the content, for buy-side contextualization or inspection.
    pub url: Option<String>,
    /// string array.
    /// Array of IAB content categories that describe the content producer.
    pub cat: Option<Vec<String>>,
    /// integer.
    /// Production quality.
    pub prodq: Option<i32>,
    /// integer; deprecated.
    /// Video quality.
    pub videoquality: Option<i32>,
    /// integer.
    /// Type of content (game, video, text, etc.).
    pub context: Option<i32>,
    /// string.
    /// Content rating (e.g., MPAA).
    pub contentrating: Option<String>,
    /// string.
    /// User rating of the content (e.g., number of stars, likes, etc.).
    pub userrating: Option<String>,
    /// integer.
    /// Media rating per IQG guidelines.
    pub qagmediarating: Option<i32>,
    /// string.
    /// Comma separated list of keywords describing the content.
    pub keywords: Option<String>,
    /// integer.
    /// 0 = not live, 1 = content is live (e.g., stream, live blog).
    pub livestream: Option<bool>,
    /// integer.
    /// 0 = indirect, 1 = direct.
    pub sourcerelationship: Option<bool>,
    /// integer.
    /// Length of content in seconds; appropriate for video or audio.
    pub len: Option<i32>,
    /// integer.
    /// Content language, as the code that the exchange gives it.
    pub language: Option<i32>,
    /// integer.
    /// Indicator of whether or not the content is embeddable (e.g., an embeddable
    /// video player), where 0 = no, 1 = yes.
    pub embeddable: Option<bool>,
    /// object array.
    /// Additional content data. Each Data object represents a different data
    /// source.
    pub data: Option<Vec<Data>>,
    /// object.
    /// Placeholder for exchange-specific extensions to OpenRTB.
    pub ext: Option<Members>,
}

/// The mathematical value of a [`Content`].
pub struct ContentView {
    pub id: Option<Seq<char>>,
    pub episode: Option<i32>,
    pub title: Option<Seq<char>>,
    pub series: Option<Seq<char>>,
    pub season: Option<Seq<char>>,
    pub artist: Option<Seq<char>>,
    pub genre: Option<Seq<char>>,
    pub album: Option<Seq<char>>,
    pub isrc: Option<Seq<char>>,
    pub producer: Option<MembersView>,
    pub url: Option<Seq<char>>,
    pub cat: Option<Seq<Seq<char>>>,
    pub prodq: Option<i32>,
    pub videoquality: Option<i32>,
    pub context: Option<i32>,
    pub contentrating: Option<Seq<char>>,
    pub userrating: Option<Seq<char>>,
    pub qagmediarating: Option<i32>,
    pub keywords: Option<Seq<char>>,
    pub livestream: Option<bool>,
    pub sourcerelationship: Option<bool>,
    pub len: Option<i32>,
    pub language: Option<i32>,
    pub embeddable: Option<bool>,
    pub data: Option<Seq<DataView>>,
    pub ext: Option<MembersView>,
}

impl View for Content {
    type V = ContentView;

    open spec fn view(&self) -> ContentView {
        ContentView {
            id: self.id.deep_view(),
            episode: self.episode,
            title: self.title.deep_view(),
            series: self.series.deep_view(),
            season: self.season.deep_view(),
            artist: self.artist.deep_view(),
            genre: self.genre.deep_view(),
            album: self.album.deep_view(),
            isrc: self.isrc.deep_view(),
            producer: self.producer.deep_view(),
            url: self.url.deep_view(),
            cat: self.cat.deep_view(),
            prodq: self.prodq,
            videoquality: self.videoquality,
            context: self.context,
            contentrating: self.contentrating.deep_view(),
            userrating: self.userrating.deep_view(),
            qagmediarating: self.qagmediarating,
            keywords: self.keywords.deep_view(),
            livestream: self.livestream,
            sourcerelationship: self.sourcerelationship,
            len: self.len,
            language: self.language,
            embeddable: self.embeddable,
            data: self.data.deep_view(),
            ext: self.ext.deep_view(),
        }
    }
}

impl DeepView for Content {
    type V = ContentView;

    open spec fn deep_view(&self) -> ContentView {
        self@
    }
}

impl ContentView {
    /// Whether no optional member has a value.
    pub open spec fn bare(self) -> bool {
        &&& self.id is None
        &&& self.episode is None
        &&& self.title is None
        &&& self.series is None
        &&& self.season is None
        &&& self.artist is None
        &&& self.genre is None
        &&& self.album is None
        &&& self.isrc is None
        &&& self.producer is None
        &&& self.url is None
        &&& self.cat is None
        &&& self.prodq is None
        &&& self.videoquality is None
        &&& self.context is None
        &&& self.contentrating is None
        &&& self.userrating is None
        &&& self.qagmediarating is None
        &&& self.keywords is None
        &&& self.livestream is None
        &&& self.sourcerelationship is None
        &&& self.len is None
        &&& self.language is None
        &&& self.embeddable is None
        &&& self.data is None
        &&& self.ext is None
    }
}

impl Default for Content {
    /// The content of which no member has a value.
    fn default() -> (r: Content)
        ensures
            r@.bare(),
    {
        Content {
            id: None,
            episode: None,
            title: None,
            series: None,
            season: None,
            artist: None,
            genre: None,
            album: None,
            isrc: None,
            producer: None,
            url: None,
            cat: None,
            prodq: None,
            videoquality: None,
            context: None,
            contentrating: None,
            userrating: None,
            qagmediarating: None,
            keywords: None,
            livestream: None,
            sourcerelationship: None,
            len: None,
            language: None,
            embeddable: None,
            data: None,
            ext: None,
        }
    }
}

impl Content {
    /// Whether a member of this name belongs to the record.
    pub open spec fn knows(name: Seq<char>) -> bool {
        name == "id"@ || name == "episode"@ || name == "title"@ || name == "series"@
            || name == "season"@ || name == "artist"@ || name == "genre"@ || name == "album"@
            || name == "isrc"@ || name == "producer"@ || name == "url"@ || name == "cat"@
            || name == "prodq"@ || name == "videoquality"@ || name == "context"@
            || name == "contentrating"@ || name == "userrating"@ || name == "qagmediarating"@
            || name == "keywords"@ || name == "livestream"@ || name == "sourcerelationship"@
            || name == "len"@ || name == "language"@ || name == "embeddable"@ || name == "data"@
            || name == "ext"@
    }

    /// Whether a member belongs to the record.
    pub open spec fn known() -> spec_fn(MemberView) -> bool {
        |m: MemberView| Self::knows(m.name)
    }

    /// What the record writes: its members, in the order of their declaration.
    pub open spec fn written(record: ContentView) -> Written {
        Written::Nothing
            .and("id"@, text_json(record.id))
            .and("episode"@, integer_json(record.episode))
            .and("title"@, text_json(record.title))
            .and("series"@, text_json(record.series))
            .and("season"@, text_json(record.season))
            .and("artist"@, text_json(record.artist))
            .and("genre"@, text_json(record.genre))
            .and("album"@, text_json(record.album))
            .and("isrc"@, text_json(record.isrc))
            .and("producer"@, object_json(record.producer))
            .and("url"@, text_json(record.url))
            .and("cat"@, texts_json(record.cat))
            .and("prodq"@, integer_json(record.prodq))
            .and("videoquality"@, integer_json(record.videoquality))
            .and("context"@, integer_json(record.context))
            .and("contentrating"@, text_json(record.contentrating))
            .and("userrating"@, text_json(record.userrating))
            .and("qagmediarating"@, integer_json(record.qagmediarating))
            .and("keywords"@, text_json(record.keywords))
            .and("livestream"@, flag_json(record.livestream))
            .and("sourcerelationship"@, flag_json(record.sourcerelationship))
            .and("len"@, integer_json(record.len))
            .and("language"@, integer_json(record.language))
            .and("embeddable"@, flag_json(record.embeddable))
            .and("data"@, records_json::<Data>(record.data))
            .and("ext"@, object_json(record.ext))
    }

    /// What is read from the members of an object is what is read from those
    /// among them that the record knows: the others are discarded, wherever
    /// they stand and whatever they hold.
    pub proof fn unknown_members_are_discarded(members: MembersView)
        ensures
            Self::decoded(members.filter(Self::known())) == Self::decoded(members),
    {
        optional_with_among(members, Self::known(), "id"@, text_rule());
        optional_with_among(members, Self::known(), "episode"@, integer_rule());
        optional_with_among(members, Self::known(), "title"@, text_rule());
        optional_with_among(members, Self::known(), "series"@, text_rule());
        optional_with_among(members, Self::known(), "season"@, text_rule());
        optional_with_among(members, Self::known(), "artist"@, text_rule());
        optional_with_among(members, Self::known(), "genre"@, text_rule());
        optional_with_among(members, Self::known(), "album"@, text_rule());
        optional_with_among(members, Self::known(), "isrc"@, text_rule());
        optional_with_among(members, Self::known(), "producer"@, object_rule());
        optional_with_among(members, Self::known(), "url"@, text_rule());
        optional_with_among(members, Self::known(), "cat"@, texts_rule());
        optional_with_among(members, Self::known(), "prodq"@, integer_rule());
        optional_with_among(members, Self::known(), "videoquality"@, integer_rule());
        optional_with_among(members, Self::known(), "context"@, integer_rule());
        optional_with_among(members, Self::known(), "contentrating"@, text_rule());
        optional_with_among(members, Self::known(), "userrating"@, text_rule());
        optional_with_among(members, Self::known(), "qagmediarating"@, integer_rule());
        optional_with_among(members, Self::known(), "keywords"@, text_rule());
        optional_with_among(members, Self::known(), "livestream"@, flag_rule());
        optional_with_among(members, Self::known(), "sourcerelationship"@, flag_rule());
        optional_with_among(members, Self::known(), "len"@, integer_rule());
        optional_with_among(members, Self::known(), "language"@, integer_rule());
        optional_with_among(members, Self::known(), "embeddable"@, flag_rule());
        optional_with_among(members, Self::known(), "data"@, records_rule::<Data>());
        optional_with_among(members, Self::known(), "ext"@, object_rule());
    }

    /// A record of which no optional member has a value is written as the
    /// empty object.
    pub proof fn absent_members_are_omitted(record: ContentView)
        requires
            record.bare(),
        ensures
            Self::encoded(record) == Seq::<MemberView>::empty(),
    {
        reveal_with_fuel(Written::members, 27);
        assert(Self::encoded(record) =~= Seq::<MemberView>::empty());
    }

    /// No two members of the record have one name.
    pub proof fn names_are_distinct(record: ContentView)
        ensures
            Self::written(record).distinct(),
    {
        reveal_strlit("id");
        reveal_strlit("episode");
        reveal_strlit("title");
        reveal_strlit("series");
        reveal_strlit("season");
        reveal_strlit("artist");
        reveal_strlit("genre");
        reveal_strlit("album");
        reveal_strlit("isrc");
        reveal_strlit("producer");
        reveal_strlit("url");
        reveal_strlit("cat");
        reveal_strlit("prodq");
        reveal_strlit("videoquality");
        reveal_strlit("context");
        reveal_strlit("contentrating");
        reveal_strlit("userrating");
        reveal_strlit("qagmediarating");
        reveal_strlit("keywords");
        reveal_strlit("livestream");
        reveal_strlit("sourcerelationship");
        reveal_strlit("len");
        reveal_strlit("language");
        reveal_strlit("embeddable");
        reveal_strlit("data");
        reveal_strlit("ext");
        assert("id"@.len() == 2 && "id"@[0] == 'i');
        assert("episode"@.len() == 7 && "episode"@[0] == 'e' && "episode"@[2] == 'i');
        assert("title"@.len() == 5 && "title"@[0] == 't' && "title"@[2] == 't');
        assert("series"@.len() == 6 && "series"@[0] == 's' && "series"@[2] == 'r');
        assert("season"@.len() == 6 && "season"@[0] == 's' && "season"@[2] == 'a');
        assert("artist"@.len() == 6 && "artist"@[0] == 'a' && "artist"@[2] == 't');
        assert("genre"@.len() == 5 && "genre"@[0] == 'g' && "genre"@[2] == 'n');
        assert("album"@.len() == 5 && "album"@[0] == 'a' && "album"@[2] == 'b');
        assert("isrc"@.len() == 4 && "isrc"@[0] == 'i' && "isrc"@[2] == 'r');
        assert("producer"@.len() == 8 && "producer"@[0] == 'p' && "producer"@[2] == 'o');
        assert("url"@.len() == 3 && "url"@[0] == 'u' && "url"@[2] == 'l');
        assert("cat"@.len() == 3 && "cat"@[0] == 'c' && "cat"@[2] == 't');
        assert("prodq"@.len() == 5 && "prodq"@[0] == 'p' && "prodq"@[2] == 'o');
        assert("videoquality"@.len() == 12 && "videoquality"@[0] == 'v'
            && "videoquality"@[2] == 'd');
        assert("context"@.len() == 7 && "context"@[0] == 'c' && "context"@[2] == 'n');
        assert("contentrating"@.len() == 13 && "contentrating"@[0] == 'c'
            && "contentrating"@[2] == 'n');
        assert("userrating"@.len() == 10 && "userrating"@[0] == 'u' && "userrating"@[2] == 'e');
        assert("qagmediarating"@.len() == 14 && "qagmediarating"@[0] == 'q'
            && "qagmediarating"@[2] == 'g');
        assert("keywords"@.len() == 8 && "keywords"@[0] == 'k' && "keywords"@[2] == 'y');
        assert("livestream"@.len() == 10 && "livestream"@[0] == 'l' && "livestream"@[2] == 'v');
        assert("sourcerelationship"@.len() == 18 && "sourcerelationship"@[0] == 's'
            && "sourcerelationship"@[2] == 'u');
        assert("len"@.len() == 3 && "len"@[0] == 'l' && "len"@[2] == 'n');
        assert("language"@.len() == 8 && "language"@[0] == 'l' && "language"@[2] == 'n');
        assert("embeddable"@.len() == 10 && "embeddable"@[0] == 'e' && "embeddable"@[2] == 'b');
        assert("data"@.len() == 4 && "data"@[0] == 'd' && "data"@[2] == 't');
        assert("ext"@.len() == 3 && "ext"@[0] == 'e' && "ext"@[2] == 't');
        reveal_with_fuel(Written::names, 27);
        reveal_with_fuel(Written::distinct, 27);
    }

    /// Under each name that the record knows, the members it is written as
    /// hold the value of that member, and nothing where the member has no
    /// value.
    pub proof fn written_members(record: ContentView)
        ensures
            JsonView::lookup(Self::encoded(record), "id"@) == text_json(record.id),
            JsonView::lookup(Self::encoded(record), "episode"@) == integer_json(record.episode),
            JsonView::lookup(Self::encoded(record), "title"@) == text_json(record.title),
            JsonView::lookup(Self::encoded(record), "series"@) == text_json(record.series),
            JsonView::lookup(Self::encoded(record), "season"@) == text_json(record.season),
            JsonView::lookup(Self::encoded(record), "artist"@) == text_json(record.artist),
            JsonView::lookup(Self::encoded(record), "genre"@) == text_json(record.genre),
            JsonView::lookup(Self::encoded(record), "album"@) == text_json(record.album),
            JsonView::lookup(Self::encoded(record), "isrc"@) == text_json(record.isrc),
            JsonView::lookup(Self::encoded(record), "producer"@) == object_json(record.producer),
            JsonView::lookup(Self::encoded(record), "url"@) == text_json(record.url),
            JsonView::lookup(Self::encoded(record), "cat"@) == texts_json(record.cat),
            JsonView::lookup(Self::encoded(record), "prodq"@) == integer_json(record.prodq),
            JsonView::lookup(Self::encoded(record), "videoquality"@)
                == integer_json(record.videoquality),
            JsonView::lookup(Self::encoded(record), "context"@) == integer_json(record.context),
            JsonView::lookup(Self::encoded(record), "contentrating"@)
                == text_json(record.contentrating),
            JsonView::lookup(Self::encoded(record), "userrating"@) == text_json(record.userrating),
            JsonView::lookup(Self::encoded(record), "qagmediarating"@)
                == integer_json(record.qagmediarating),
            JsonView::lookup(Self::encoded(record), "keywords"@) == text_json(record.keywords),
            JsonView::lookup(Self::encoded(record), "livestream"@) == flag_json(record.livestream),
            JsonView::lookup(Self::encoded(record), "sourcerelationship"@)
                == flag_json(record.sourcerelationship),
            JsonView::lookup(Self::encoded(record), "len"@) == integer_json(record.len),
            JsonView::lookup(Self::encoded(record), "language"@) == integer_json(record.language),
            JsonView::lookup(Self::encoded(record), "embeddable"@) == flag_json(record.embeddable),
            JsonView::lookup(Self::encoded(record), "data"@) == records_json::<Data>(record.data),
            JsonView::lookup(Self::encoded(record), "ext"@) == object_json(record.ext),
    {
        Self::names_are_distinct(record);
        Self::written(record).members_hold_each();
        reveal_with_fuel(Written::found_in, 27);
    }

    /// Members that hold, under each name that the record knows, what a valid
    /// record is written as there, are read as that record.
    pub proof fn read_from_written(members: MembersView, record: ContentView)
        requires
            Self::valid(record),
            JsonView::lookup(members, "id"@) == text_json(record.id),
            JsonView::lookup(members, "episode"@) == integer_json(record.episode),
            JsonView::lookup(members, "title"@) == text_json(record.title),
            JsonView::lookup(members, "series"@) == text_json(record.series),
            JsonView::lookup(members, "season"@) == text_json(record.season),
            JsonView::lookup(members, "artist"@) == text_json(record.artist),
            JsonView::lookup(members, "genre"@) == text_json(record.genre),
            JsonView::lookup(members, "album"@) == text_json(record.album),
            JsonView::lookup(members, "isrc"@) == text_json(record.isrc),
            JsonView::lookup(members, "producer"@) == object_json(record.producer),
            JsonView::lookup(members, "url"@) == text_json(record.url),
            JsonView::lookup(members, "cat"@) == texts_json(record.cat),
            JsonView::lookup(members, "prodq"@) == integer_json(record.prodq),
            JsonView::lookup(members, "videoquality"@) == integer_json(record.videoquality),
            JsonView::lookup(members, "context"@) == integer_json(record.context),
            JsonView::lookup(members, "contentrating"@) == text_json(record.contentrating),
            JsonView::lookup(members, "userrating"@) == text_json(record.userrating),
            JsonView::lookup(members, "qagmediarating"@) == integer_json(record.qagmediarating),
            JsonView::lookup(members, "keywords"@) == text_json(record.keywords),
            JsonView::lookup(members, "livestream"@) == flag_json(record.livestream),
            JsonView::lookup(members, "sourcerelationship"@)
                == flag_json(record.sourcerelationship),
            JsonView::lookup(members, "len"@) == integer_json(record.len),
            JsonView::lookup(members, "language"@) == integer_json(record.language),
            JsonView::lookup(members, "embeddable"@) == flag_json(record.embeddable),
            JsonView::lookup(members, "data"@) == records_json::<Data>(record.data),
            JsonView::lookup(members, "ext"@) == object_json(record.ext),
        ensures
            Self::decoded(members) == Ok::<ContentView, DecodeErrorView>(record),
    {
        text_is_read(members, "id"@, record.id);
        integer_is_read(members, "episode"@, record.episode);
        text_is_read(members, "title"@, record.title);
        text_is_read(members, "series"@, record.series);
        text_is_read(members, "season"@, record.season);
        text_is_read(members, "artist"@, record.artist);
        text_is_read(members, "genre"@, record.genre);
        text_is_read(members, "album"@, record.album);
        text_is_read(members, "isrc"@, record.isrc);
        object_is_read(members, "producer"@, record.producer);
        text_is_read(members, "url"@, record.url);
        texts_are_read(members, "cat"@, record.cat);
        integer_is_read(members, "prodq"@, record.prodq);
        integer_is_read(members, "videoquality"@, record.videoquality);
        integer_is_read(members, "context"@, record.context);
        text_is_read(members, "contentrating"@, record.contentrating);
        text_is_read(members, "userrating"@, record.userrating);
        integer_is_read(members, "qagmediarating"@, record.qagmediarating);
        text_is_read(members, "keywords"@, record.keywords);
        flag_is_read(members, "livestream"@, record.livestream);
        flag_is_read(members, "sourcerelationship"@, record.sourcerelationship);
        integer_is_read(members, "len"@, record.len);
        integer_is_read(members, "language"@, record.language);
        flag_is_read(members, "embeddable"@, record.embeddable);
        records_are_read::<Data>(members, "data"@, record.data);
        object_is_read(members, "ext"@, record.ext);
    }
}

impl Record for Content {
    open spec fn decoded(members: MembersView) -> Result<ContentView, DecodeErrorView> {
        let id = optional_with(members, "id"@, text_rule());
        let episode = optional_with(members, "episode"@, integer_rule());
        let title = optional_with(members, "title"@, text_rule());
        let series = optional_with(members, "series"@, text_rule());
        let season = optional_with(members, "season"@, text_rule());
        let artist = optional_with(members, "artist"@, text_rule());
        let genre = optional_with(members, "genre"@, text_rule());
        let album = optional_with(members, "album"@, text_rule());
        let isrc = optional_with(members, "isrc"@, text_rule());
        let producer = optional_with(members, "producer"@, object_rule());
        let url = optional_with(members, "url"@, text_rule());
        let cat = optional_with(members, "cat"@, texts_rule());
        let prodq = optional_with(members, "prodq"@, integer_rule());
        let videoquality = optional_with(members, "videoquality"@, integer_rule());
        let context = optional_with(members, "context"@, integer_rule());
        let contentrating = optional_with(members, "contentrating"@, text_rule());
        let userrating = optional_with(members, "userrating"@, text_rule());
        let qagmediarating = optional_with(members, "qagmediarating"@, integer_rule());
        let keywords = optional_with(members, "keywords"@, text_rule());
        let livestream = optional_with(members, "livestream"@, flag_rule());
        let sourcerelationship = optional_with(members, "sourcerelationship"@, flag_rule());
        let len = optional_with(members, "len"@, integer_rule());
        let language = optional_with(members, "language"@, integer_rule());
        let embeddable = optional_with(members, "embeddable"@, flag_rule());
        let data = optional_with(members, "data"@, records_rule::<Data>());
        let ext = optional_with(members, "ext"@, object_rule());
        if id is Err {
            Err(id->Err_0)
        } else if episode is Err {
            Err(episode->Err_0)
        } else if title is Err {
            Err(title->Err_0)
        } else if series is Err {
            Err(series->Err_0)
        } else if season is Err {
            Err(season->Err_0)
        } else if artist is Err {
            Err(artist->Err_0)
        } else if genre is Err {
            Err(genre->Err_0)
        } else if album is Err {
            Err(album->Err_0)
        } else if isrc is Err {
            Err(isrc->Err_0)
        } else if producer is Err {
            Err(producer->Err_0)
        } else if url is Err {
            Err(url->Err_0)
        } else if cat is Err {
            Err(cat->Err_0)
        } else if prodq is Err {
            Err(prodq->Err_0)
        } else if videoquality is Err {
            Err(videoquality->Err_0)
        } else if context is Err {
            Err(context->Err_0)
        } else if contentrating is Err {
            Err(contentrating->Err_0)
        } else if userrating is Err {
            Err(userrating->Err_0)
        } else if qagmediarating is Err {
            Err(qagmediarating->Err_0)
        } else if keywords is Err {
            Err(keywords->Err_0)
        } else if livestream is Err {
            Err(livestream->Err_0)
        } else if sourcerelationship is Err {
            Err(sourcerelationship->Err_0)
        } else if len is Err {
            Err(len->Err_0)
        } else if language is Err {
            Err(language->Err_0)
        } else if embeddable is Err {
            Err(embeddable->Err_0)
        } else if data is Err {
            Err(data->Err_0)
        } else if ext is Err {
            Err(ext->Err_0)
        } else {
            Ok(
                ContentView {
                    id: id->Ok_0,
                    episode: episode->Ok_0,
                    title: title->Ok_0,
                    series: series->Ok_0,
                    season: season->Ok_0,
                    artist: artist->Ok_0,
                    genre: genre->Ok_0,
                    album: album->Ok_0,
                    isrc: isrc->Ok_0,
                    producer: producer->Ok_0,
                    url: url->Ok_0,
                    cat: cat->Ok_0,
                    prodq: prodq->Ok_0,
                    videoquality: videoquality->Ok_0,
                    context: context->Ok_0,
                    contentrating: contentrating->Ok_0,
                    userrating: userrating->Ok_0,
                    qagmediarating: qagmediarating->Ok_0,
                    keywords: keywords->Ok_0,
                    livestream: livestream->Ok_0,
                    sourcerelationship: sourcerelationship->Ok_0,
                    len: len->Ok_0,
                    language: language->Ok_0,
                    embeddable: embeddable->Ok_0,
                    data: data->Ok_0,
                    ext: ext->Ok_0,
                },
            )
        }
    }

    open spec fn encoded(record: ContentView) -> MembersView {
        Self::written(record).members()
    }

    open spec fn valid(record: ContentView) -> bool {
        &&& all_valid::<Data>(record.data)
    }

    proof fn decoded_is_valid(members: MembersView) {
        optional_records_are_valid::<Data>(members, "data"@);
    }

    proof fn encoded_then_decoded(record: ContentView) {
        Self::written_members(record);
        Self::read_from_written(Self::encoded(record), record);
    }

    fn decode(members: &Members) -> (r: Result<Content, DecodeError>) {
        let id = optional_text(members, "id")?;
        let episode = optional_integer(members, "episode")?;
        let title = optional_text(members, "title")?;
        let series = optional_text(members, "series")?;
        let season = optional_text(members, "season")?;
        let artist = optional_text(members, "artist")?;
        let genre = optional_text(members, "genre")?;
        let album = optional_text(members, "album")?;
        let isrc = optional_text(members, "isrc")?;
        let producer = optional_object(members, "producer")?;
        let url = optional_text(members, "url")?;
        let cat = optional_texts(members, "cat")?;
        let prodq = optional_integer(members, "prodq")?;
        let videoquality = optional_integer(members, "videoquality")?;
        let context = optional_integer(members, "context")?;
        let contentrating = optional_text(members, "contentrating")?;
        let userrating = optional_text(members, "userrating")?;
        let qagmediarating = optional_integer(members, "qagmediarating")?;
        let keywords = optional_text(members, "keywords")?;
        let livestream = optional_flag(members, "livestream")?;
        let sourcerelationship = optional_flag(members, "sourcerelationship")?;
        let len = optional_integer(members, "len")?;
        let language = optional_integer(members, "language")?;
        let embeddable = optional_flag(members, "embeddable")?;
        let data = optional_records::<Data>(members, "data")?;
        let ext = optional_object(members, "ext")?;
        Ok(
            Content {
                id,
                episode,
                title,
                series,
                season,
                artist,
                genre,
                album,
                isrc,
                producer,
                url,
                cat,
                prodq,
                videoquality,
                context,
                contentrating,
                userrating,
                qagmediarating,
                keywords,
                livestream,
                sourcerelationship,
                len,
                language,
                embeddable,
                data,
                ext,
            },
        )
    }

    fn encode(&self) -> (members: Members) {
        let mut members: Members = Vec::new();
        put_text(&mut members, "id", &self.id);
        put_integer(&mut members, "episode", &self.episode);
        put_text(&mut members, "title", &self.title);
        put_text(&mut members, "series", &self.series);
        put_text(&mut members, "season", &self.season);
        put_text(&mut members, "artist", &self.artist);
        put_text(&mut members, "genre", &self.genre);
        put_text(&mut members, "album", &self.album);
        put_text(&mut members, "isrc", &self.isrc);
        put_object(&mut members, "producer", &self.producer);
        put_text(&mut members, "url", &self.url);
        put_texts(&mut members, "cat", &self.cat);
        put_integer(&mut members, "prodq", &self.prodq);
        put_integer(&mut members, "videoquality", &self.videoquality);
        put_integer(&mut members, "context", &self.context);
        put_text(&mut members, "contentrating", &self.contentrating);
        put_text(&mut members, "userrating", &self.userrating);
        put_integer(&mut members, "qagmediarating", &self.qagmediarating);
        put_text(&mut members, "keywords", &self.keywords);
        put_flag(&mut members, "livestream", &self.livestream);
        put_flag(&mut members, "sourcerelationship", &self.sourcerelationship);
        put_integer(&mut members, "len", &self.len);
        put_integer(&mut members, "language", &self.language);
        put_flag(&mut members, "embeddable", &self.embeddable);
        put_records(&mut members, "data", &self.data);
        put_object(&mut members, "ext", &self.ext);
        proof {
            reveal_with_fuel(Written::members, 27);
        }
        members
    }

    fn is_valid(&self) -> (b: bool) {
        records_are_valid(&self.data)
    }
}

} // verus!
