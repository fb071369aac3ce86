//! The website on which an impression appears.

use crate::content::{Content, ContentView};
use crate::error::{DecodeError, DecodeErrorView};
use crate::field::{
    flag_is_read, flag_json, json_is_held, json_is_read, object_is_read, object_json,
    optional_flag, optional_json, optional_object, optional_text, optional_texts, optional_with,
    optional_with_among, put_flag, put_json, put_object, put_text, put_texts, text_is_read,
    text_json, texts_are_read, texts_json, Written,
};
use crate::item::{any_rule, flag_rule, object_rule, text_rule, texts_rule};
use crate::json::{Json, JsonView, Members, MembersView, MemberView};
use crate::record::{
    optional_record, optional_record_is_valid, put_record, Record, record_is_read,
    record_is_valid, record_json, record_rule, valid_if,
};
use vstd::prelude::*;

verus! {

/// This object should be included if the ad supported content is a website as
/// opposed to a non-browser application. A bid request must not contain both
/// a Site and an App object. At a minimum, it is useful to provide a site ID
/// or page URL, but this is not strictly required.
#[derive(Debug, PartialEq, Clone)]
pub struct Site {
    /// string; recommended.
    /// Exchange-specific site ID.
    pub id: Option<String>,
    /// string.
    /// Site name (may be aliased at the publisher's request).
    pub name: Option<String>,
    /// string.
    /// Domain of the site (e.g., "mysite.foo.com").
    pub domain: Option<String>,
    /// string array.
    /// Array of IAB content categories of the site.
    pub cat: Option<Vec<String>>,
    /// string array.
    /// Array of IAB content categories that describe the current section of the
    /// site.
    pub sectioncat: Option<Vec<String>>,
    /// string array.
    /// Array of IAB content categories that describe the current page or view of
    /// the site.
    pub pagecat: Option<Vec<String>>,
    /// string.
    /// URL of the page where the impression will be shown.
    pub page: Option<String>,
    /// string.
    /// Referrer URL that caused navigation to the current page.
    pub ref_: Option<String>,
    /// string.
    /// Search string that caused navigation to the current page.
    pub search: Option<String>,
    /// integer.
    /// Indicates if the site has been programmed to optimize layout when viewed
    /// on mobile devices, where 0 = no, 1 = yes.
    pub mobile: Option<bool>,
    /// integer.
    /// Indicates if the site has a privacy policy, where 0 = no, 1 = yes.
    pub privacypolicy: Option<bool>,
    /// object.
    /// Details about the Publisher of the site.
    pub publisher: Option<Members>,
    /// object.
    /// Details about the Content within the site.
    pub content: Option<Content>,
    /// string.
    /// Comma separated list of keywords about the site.
    pub keywords: Option<String>,
    /// object.
    /// Placeholder for exchange-specific extensions to OpenRTB.
    pub ext: Option<Json>,
}

/// The mathematical value of a [`Site`].
pub struct SiteView {
    pub id: Option<Seq<char>>,
    pub name: Option<Seq<char>>,
    pub domain: Option<Seq<char>>,
    pub cat: Option<Seq<Seq<char>>>,
    pub sectioncat: Option<Seq<Seq<char>>>,
    pub pagecat: Option<Seq<Seq<char>>>,
    pub page: Option<Seq<char>>,
    pub ref_: Option<Seq<char>>,
    pub search: Option<Seq<char>>,
    pub mobile: Option<bool>,
    pub privacypolicy: Option<bool>,
    pub publisher: Option<MembersView>,
    pub content: Option<ContentView>,
    pub keywords: Option<Seq<char>>,
    pub ext: Option<JsonView>,
}

impl View for Site {
    type V = SiteView;

    open spec fn view(&self) -> SiteView {
        SiteView {
            id: self.id.deep_view(),
            name: self.name.deep_view(),
            domain: self.domain.deep_view(),
            cat: self.cat.deep_view(),
            sectioncat: self.sectioncat.deep_view(),
            pagecat: self.pagecat.deep_view(),
            page: self.page.deep_view(),
            ref_: self.ref_.deep_view(),
            search: self.search.deep_view(),
            mobile: self.mobile,
            privacypolicy: self.privacypolicy,
            publisher: self.publisher.deep_view(),
            content: self.content.deep_view(),
            keywords: self.keywords.deep_view(),
            ext: self.ext.deep_view(),
        }
    }
}

impl DeepView for Site {
    type V = SiteView;

    open spec fn deep_view(&self) -> SiteView {
        self@
    }
}

impl SiteView {
    /// Whether no optional member has a value.
    pub open spec fn bare(self) -> bool {
        &&& self.id is None
        &&& self.name is None
        &&& self.domain is None
        &&& self.cat is None
        &&& self.sectioncat is None
        &&& self.pagecat is None
        &&& self.page is None
        &&& self.ref_ is None
        &&& self.search is None
        &&& self.mobile is None
        &&& self.privacypolicy is None
        &&& self.publisher is None
        &&& self.content is None
        &&& self.keywords is None
        &&& self.ext is None
    }
}

impl Default for Site {
    /// The site of which no member has a value.
    fn default() -> (r: Site)
        ensures
            r@.bare(),
    {
        Site {
            id: None,
            name: None,
            domain: None,
            cat: None,
            sectioncat: None,
            pagecat: None,
            page: None,
            ref_: None,
            search: None,
            mobile: None,
            privacypolicy: None,
            publisher: None,
            content: None,
            keywords: None,
            ext: None,
        }
    }
}

impl Site {
    /// Whether a member of this name belongs to the record.
    pub open spec fn knows(name: Seq<char>) -> bool {
        name == "id"@ || name == "name"@ || name == "domain"@ || name == "cat"@
            || name == "sectioncat"@ || name == "pagecat"@ || name == "page"@ || name == "ref"@
            || name == "search"@ || name == "mobile"@ || name == "privacypolicy"@
            || name == "publisher"@ || name == "content"@ || name == "keywords"@ || name == "ext"@
    }

    /// Whether a member belongs to the record.
    pub open spec fn known() -> spec_fn(MemberView) -> bool {
        |m: MemberView| Self::knows(m.name)
    }

    /// What the record writes: its members, in the order of their declaration.
    pub open spec fn written(record: SiteView) -> Written {
        Written::Nothing
            .and("id"@, text_json(record.id))
            .and("name"@, text_json(record.name))
            .and("domain"@, text_json(record.domain))
            .and("cat"@, texts_json(record.cat))
            .and("sectioncat"@, texts_json(record.sectioncat))
            .and("pagecat"@, texts_json(record.pagecat))
            .and("page"@, text_json(record.page))
            .and("ref"@, text_json(record.ref_))
            .and("search"@, text_json(record.search))
            .and("mobile"@, flag_json(record.mobile))
            .and("privacypolicy"@, flag_json(record.privacypolicy))
            .and("publisher"@, object_json(record.publisher))
            .and("content"@, record_json::<Content>(record.content))
            .and("keywords"@, text_json(record.keywords))
            .and("ext"@, record.ext)
    }

    /// What is read from the members of an object is what is read from those
    /// among them that the record knows: the others are discarded, wherever
    /// they stand and whatever they hold.
    pub proof fn unknown_members_are_discarded(members: MembersView)
        ensures
            Self::decoded(members.filter(Self::known())) == Self::decoded(members),
    {
        optional_with_among(members, Self::known(), "id"@, text_rule());
        optional_with_among(members, Self::known(), "name"@, text_rule());
        optional_with_among(members, Self::known(), "domain"@, text_rule());
        optional_with_among(members, Self::known(), "cat"@, texts_rule());
        optional_with_among(members, Self::known(), "sectioncat"@, texts_rule());
        optional_with_among(members, Self::known(), "pagecat"@, texts_rule());
        optional_with_among(members, Self::known(), "page"@, text_rule());
        optional_with_among(members, Self::known(), "ref"@, text_rule());
        optional_with_among(members, Self::known(), "search"@, text_rule());
        optional_with_among(members, Self::known(), "mobile"@, flag_rule());
        optional_with_among(members, Self::known(), "privacypolicy"@, flag_rule());
        optional_with_among(members, Self::known(), "publisher"@, object_rule());
        optional_with_among(members, Self::known(), "content"@, record_rule::<Content>());
        optional_with_among(members, Self::known(), "keywords"@, text_rule());
        optional_with_among(members, Self::known(), "ext"@, any_rule());
    }

    /// A record of which no optional member has a value is written as the
    /// empty object.
    pub proof fn absent_members_are_omitted(record: SiteView)
        requires
            record.bare(),
        ensures
            Self::encoded(record) == Seq::<MemberView>::empty(),
    {
        reveal_with_fuel(Written::members, 16);
        assert(Self::encoded(record) =~= Seq::<MemberView>::empty());
    }

    /// No two members of the record have one name.
    pub proof fn names_are_distinct(record: SiteView)
        ensures
            Self::written(record).distinct(),
    {
        reveal_strlit("id");
        reveal_strlit("name");
        reveal_strlit("domain");
        reveal_strlit("cat");
        reveal_strlit("sectioncat");
        reveal_strlit("pagecat");
        reveal_strlit("page");
        reveal_strlit("ref");
        reveal_strlit("search");
        reveal_strlit("mobile");
        reveal_strlit("privacypolicy");
        reveal_strlit("publisher");
        reveal_strlit("content");
        reveal_strlit("keywords");
        reveal_strlit("ext");
        assert("id"@.len() == 2 && "id"@[0] == 'i');
        assert("name"@.len() == 4 && "name"@[0] == 'n');
        assert("domain"@.len() == 6 && "domain"@[0] == 'd');
        assert("cat"@.len() == 3 && "cat"@[0] == 'c');
        assert("sectioncat"@.len() == 10 && "sectioncat"@[0] == 's');
        assert("pagecat"@.len() == 7 && "pagecat"@[0] == 'p');
        assert("page"@.len() == 4 && "page"@[0] == 'p');
        assert("ref"@.len() == 3 && "ref"@[0] == 'r');
        assert("search"@.len() == 6 && "search"@[0] == 's');
        assert("mobile"@.len() == 6 && "mobile"@[0] == 'm');
        assert("privacypolicy"@.len() == 13 && "privacypolicy"@[0] == 'p');
        assert("publisher"@.len() == 9 && "publisher"@[0] == 'p');
        assert("content"@.len() == 7 && "content"@[0] == 'c');
        assert("keywords"@.len() == 8 && "keywords"@[0] == 'k');
        assert("ext"@.len() == 3 && "ext"@[0] == 'e');
        reveal_with_fuel(Written::names, 16);
        reveal_with_fuel(Written::distinct, 16);
    }

    /// Under each name that the record knows, the members it is written as
    /// hold the value of that member, and nothing where the member has no
    /// value.
    pub proof fn written_members(record: SiteView)
        ensures
            JsonView::lookup(Self::encoded(record), "id"@) == text_json(record.id),
            JsonView::lookup(Self::encoded(record), "name"@) == text_json(record.name),
            JsonView::lookup(Self::encoded(record), "domain"@) == text_json(record.domain),
            JsonView::lookup(Self::encoded(record), "cat"@) == texts_json(record.cat),
            JsonView::lookup(Self::encoded(record), "sectioncat"@) == texts_json(record.sectioncat),
            JsonView::lookup(Self::encoded(record), "pagecat"@) == texts_json(record.pagecat),
            JsonView::lookup(Self::encoded(record), "page"@) == text_json(record.page),
            JsonView::lookup(Self::encoded(record), "ref"@) == text_json(record.ref_),
            JsonView::lookup(Self::encoded(record), "search"@) == text_json(record.search),
            JsonView::lookup(Self::encoded(record), "mobile"@) == flag_json(record.mobile),
            JsonView::lookup(Self::encoded(record), "privacypolicy"@)
                == flag_json(record.privacypolicy),
            JsonView::lookup(Self::encoded(record), "publisher"@) == object_json(record.publisher),
            JsonView::lookup(Self::encoded(record), "content"@)
                == record_json::<Content>(record.content),
            JsonView::lookup(Self::encoded(record), "keywords"@) == text_json(record.keywords),
            JsonView::lookup(Self::encoded(record), "ext"@) == record.ext,
    {
        Self::names_are_distinct(record);
        Self::written(record).members_hold_each();
        reveal_with_fuel(Written::found_in, 16);
    }

    /// Members that hold, under each name that the record knows, what a valid
    /// record is written as there, are read as that record.
    pub proof fn read_from_written(members: MembersView, record: SiteView)
        requires
            Self::valid(record),
            JsonView::lookup(members, "id"@) == text_json(record.id),
            JsonView::lookup(members, "name"@) == text_json(record.name),
            JsonView::lookup(members, "domain"@) == text_json(record.domain),
            JsonView::lookup(members, "cat"@) == texts_json(record.cat),
            JsonView::lookup(members, "sectioncat"@) == texts_json(record.sectioncat),
            JsonView::lookup(members, "pagecat"@) == texts_json(record.pagecat),
            JsonView::lookup(members, "page"@) == text_json(record.page),
            JsonView::lookup(members, "ref"@) == text_json(record.ref_),
            JsonView::lookup(members, "search"@) == text_json(record.search),
            JsonView::lookup(members, "mobile"@) == flag_json(record.mobile),
            JsonView::lookup(members, "privacypolicy"@) == flag_json(record.privacypolicy),
            JsonView::lookup(members, "publisher"@) == object_json(record.publisher),
            JsonView::lookup(members, "content"@) == record_json::<Content>(record.content),
            JsonView::lookup(members, "keywords"@) == text_json(record.keywords),
            JsonView::lookup(members, "ext"@) == record.ext,
        ensures
            Self::decoded(members) == Ok::<SiteView, DecodeErrorView>(record),
    {
        text_is_read(members, "id"@, record.id);
        text_is_read(members, "name"@, record.name);
        text_is_read(members, "domain"@, record.domain);
        texts_are_read(members, "cat"@, record.cat);
        texts_are_read(members, "sectioncat"@, record.sectioncat);
        texts_are_read(members, "pagecat"@, record.pagecat);
        text_is_read(members, "page"@, record.page);
        text_is_read(members, "ref"@, record.ref_);
        text_is_read(members, "search"@, record.search);
        flag_is_read(members, "mobile"@, record.mobile);
        flag_is_read(members, "privacypolicy"@, record.privacypolicy);
        object_is_read(members, "publisher"@, record.publisher);
        record_is_read::<Content>(members, "content"@, record.content);
        text_is_read(members, "keywords"@, record.keywords);
        json_is_read(members, "ext"@, record.ext);
    }
}

impl Record for Site {
    open spec fn decoded(members: MembersView) -> Result<SiteView, DecodeErrorView> {
        let id = optional_with(members, "id"@, text_rule());
        let name = optional_with(members, "name"@, text_rule());
        let domain = optional_with(members, "domain"@, text_rule());
        let cat = optional_with(members, "cat"@, texts_rule());
        let sectioncat = optional_with(members, "sectioncat"@, texts_rule());
        let pagecat = optional_with(members, "pagecat"@, texts_rule());
        let page = optional_with(members, "page"@, text_rule());
        let ref_ = optional_with(members, "ref"@, text_rule());
        let search = optional_with(members, "search"@, text_rule());
        let mobile = optional_with(members, "mobile"@, flag_rule());
        let privacypolicy = optional_with(members, "privacypolicy"@, flag_rule());
        let publisher = optional_with(members, "publisher"@, object_rule());
        let content = optional_with(members, "content"@, record_rule::<Content>());
        let keywords = optional_with(members, "keywords"@, text_rule());
        let ext = optional_with(members, "ext"@, any_rule());
        if id is Err {
            Err(id->Err_0)
        } else if name is Err {
            Err(name->Err_0)
        } else if domain is Err {
            Err(domain->Err_0)
        } else if cat is Err {
            Err(cat->Err_0)
        } else if sectioncat is Err {
            Err(sectioncat->Err_0)
        } else if pagecat is Err {
            Err(pagecat->Err_0)
        } else if page is Err {
            Err(page->Err_0)
        } else if ref_ is Err {
            Err(ref_->Err_0)
        } else if search is Err {
            Err(search->Err_0)
        } else if mobile is Err {
            Err(mobile->Err_0)
        } else if privacypolicy is Err {
            Err(privacypolicy->Err_0)
        } else if publisher is Err {
            Err(publisher->Err_0)
        } else if content is Err {
            Err(content->Err_0)
        } else if keywords is Err {
            Err(keywords->Err_0)
        } else if ext is Err {
            Err(ext->Err_0)
        } else {
            Ok(
                SiteView {
                    id: id->Ok_0,
                    name: name->Ok_0,
                    domain: domain->Ok_0,
                    cat: cat->Ok_0,
                    sectioncat: sectioncat->Ok_0,
                    pagecat: pagecat->Ok_0,
                    page: page->Ok_0,
                    ref_: ref_->Ok_0,
                    search: search->Ok_0,
                    mobile: mobile->Ok_0,
                    privacypolicy: privacypolicy->Ok_0,
                    publisher: publisher->Ok_0,
                    content: content->Ok_0,
                    keywords: keywords->Ok_0,
                    ext: ext->Ok_0,
                },
            )
        }
    }

    open spec fn encoded(record: SiteView) -> MembersView {
        Self::written(record).members()
    }

    open spec fn valid(record: SiteView) -> bool {
        &&& valid_if::<Content>(record.content)
        &&& record.ext != Some(JsonView::Null)
    }

    proof fn decoded_is_valid(members: MembersView) {
        optional_record_is_valid::<Content>(members, "content"@);
    }

    proof fn encoded_then_decoded(record: SiteView) {
        Self::written_members(record);
        Self::read_from_written(Self::encoded(record), record);
    }

    fn decode(members: &Members) -> (r: Result<Site, DecodeError>) {
        let id = optional_text(members, "id")?;
        let name = optional_text(members, "name")?;
        let domain = optional_text(members, "domain")?;
        let cat = optional_texts(members, "cat")?;
        let sectioncat = optional_texts(members, "sectioncat")?;
        let pagecat = optional_texts(members, "pagecat")?;
        let page = optional_text(members, "page")?;
        let ref_ = optional_text(members, "ref")?;
        let search = optional_text(members, "search")?;
        let mobile = optional_flag(members, "mobile")?;
        let privacypolicy = optional_flag(members, "privacypolicy")?;
        let publisher = optional_object(members, "publisher")?;
        let content = optional_record::<Content>(members, "content")?;
        let keywords = optional_text(members, "keywords")?;
        let ext = optional_json(members, "ext")?;
        Ok(
            Site {
                id,
                name,
                domain,
                cat,
                sectioncat,
                pagecat,
                page,
                ref_,
                search,
                mobile,
                privacypolicy,
                publisher,
                content,
                keywords,
                ext,
            },
        )
    }

    fn encode(&self) -> (members: Members) {
        let mut members: Members = Vec::new();
        put_text(&mut members, "id", &self.id);
        put_text(&mut members, "name", &self.name);
        put_text(&mut members, "domain", &self.domain);
        put_texts(&mut members, "cat", &self.cat);
        put_texts(&mut members, "sectioncat", &self.sectioncat);
        put_texts(&mut members, "pagecat", &self.pagecat);
        put_text(&mut members, "page", &self.page);
        put_text(&mut members, "ref", &self.ref_);
        put_text(&mut members, "search", &self.search);
        put_flag(&mut members, "mobile", &self.mobile);
        put_flag(&mut members, "privacypolicy", &self.privacypolicy);
        put_object(&mut members, "publisher", &self.publisher);
        put_record(&mut members, "content", &self.content);
        put_text(&mut members, "keywords", &self.keywords);
        put_json(&mut members, "ext", &self.ext);
        proof {
            reveal_with_fuel(Written::members, 16);
        }
        members
    }

    fn is_valid(&self) -> (b: bool) {
        record_is_valid(&self.content)
            && json_is_held(&self.ext)
    }
}

} // verus!
