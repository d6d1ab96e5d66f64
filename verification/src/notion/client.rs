//! The target store's client, without its transport: which database a
//! search result offers, whether a database has the fields that pages need,
//! and what the store is asked to create.

use vstd::prelude::*;
use crate::constants::DATABASE_NOT_FOUND_MSG;
use crate::notion::model::{
    CreateBlock, CreateBlockView, DatabasePropertyView, PageCreateRequest, PageCreateRequestView,
    PageProperty, PagePropertyView, PropertyConfiguration, PropertyConfigurationView,
    PropertyValue, PropertyValueView, SelectOption, SelectOptionView, TargetDatabase,
    TargetDatabaseView,
};
use crate::notion::new_page::{
    image_property, name_property, tags_property, url_property, NewPage, NewPageView,
};
use crate::text::{remove_char, same_text, without_char};

verus! {

/// A client of the target store, known by its integration token.
#[derive(Clone, Debug, PartialEq)]
pub struct Notion {
    pub api_token: String,
}

/// Why the store could not serve a request that never left this crate.
#[derive(Clone, Copy, Debug, PartialEq, Eq, Structural)]
pub enum NotionError {
    /// No database of the search result has the id asked for.
    DatabaseNotFound,
}

impl NotionError {
    /// What the user is told of the error.
    pub fn message(&self) -> (text: String)
        ensures
            text@ == DATABASE_NOT_FOUND_MSG@,
    {
        String::from_str(DATABASE_NOT_FOUND_MSG)
    }
}

/// The first of `properties` whose name is exactly `name`.
pub open spec fn find_property(properties: Seq<DatabasePropertyView>, name: Seq<char>) -> Option<
    DatabasePropertyView,
>
    decreases properties.len(),
{
    if properties.len() == 0 {
        None
    } else if properties[0].name == name {
        Some(properties[0])
    } else {
        find_property(properties.drop_first(), name)
    }
}

/// Whether the database has a field of exactly that name.
pub open spec fn has_property(database: TargetDatabaseView, name: Seq<char>) -> bool {
    exists|i: int|
        0 <= i < database.properties.len() && (#[trigger] database.properties[i]).name == name
}

/// Whether the database has the four fields that a page is written to:
/// `Name`, `Image`, `URL` and `Tags`, spelled exactly so.
pub open spec fn has_expected_properties(database: TargetDatabaseView) -> bool {
    &&& has_property(database, "Name"@)
    &&& has_property(database, "Image"@)
    &&& has_property(database, "URL"@)
    &&& has_property(database, "Tags"@)
}

/// The tag options that the database already defines: those of its `Tags`
/// field where that is a multi-select, none otherwise.
pub open spec fn existing_tag_options(database: TargetDatabaseView) -> Seq<SelectOptionView> {
    match find_property(database.properties, "Tags"@) {
        Some(property) => match property.configuration {
            PropertyConfigurationView::MultiSelect { options } => options,
            PropertyConfigurationView::Other => Seq::empty(),
        },
        None => Seq::empty(),
    }
}

/// A property that has a value is written under its name; one without is not
/// written at all.
pub open spec fn present(name: Seq<char>, value: Option<PropertyValueView>) -> Seq<
    PagePropertyView,
> {
    match value {
        Some(v) => seq![PagePropertyView { name: name, value: v }],
        None => Seq::empty(),
    }
}

/// The properties of the page, in the order `Name`, `URL`, `Tags`, `Image`.
pub open spec fn page_properties(page: NewPageView) -> Seq<PagePropertyView> {
    present("Name"@, name_property(page.name)) + present("URL"@, url_property(page.url)) + present(
        "Tags"@,
        tags_property(page.tags, existing_tag_options(page.database)),
    ) + present("Image"@, image_property(page.image_url))
}

/// An image block where an image was uploaded.
pub open spec fn image_block(image_url: Option<Seq<char>>) -> Seq<CreateBlockView> {
    match image_url {
        Some(link) => seq![CreateBlockView::Image { url: link }],
        None => Seq::empty(),
    }
}

/// A bookmark block where a link was found.
pub open spec fn bookmark_block(url: Option<Seq<char>>) -> Seq<CreateBlockView> {
    match url {
        Some(link) => seq![CreateBlockView::Bookmark { url: link }],
        None => Seq::empty(),
    }
}

/// The request that creates the page: under the database, with the
/// properties that have a value, the image block first and the bookmark
/// block second, each only where its source is there.
pub open spec fn page_request(page: NewPageView) -> PageCreateRequestView {
    PageCreateRequestView {
        parent_database_id: page.database.id,
        properties: page_properties(page),
        children: Some(image_block(page.image_url) + bookmark_block(page.url)),
    }
}

/// Whether the request writes a property of exactly that name.
pub open spec fn writes_property(request: PageCreateRequestView, name: Seq<char>) -> bool {
    exists|i: int|
        0 <= i < request.properties.len() && (#[trigger] request.properties[i]).name == name
}

/// The first database of `results` that goes by `database_id` once the
/// hyphens are taken out of its id.
pub open spec fn find_database(results: Seq<TargetDatabaseView>, database_id: Seq<char>) -> Option<
    TargetDatabaseView,
>
    decreases results.len(),
{
    if results.len() == 0 {
        None
    } else if without_char(results[0].id, '-') == database_id {
        Some(results[0])
    } else {
        find_database(results.drop_first(), database_id)
    }
}

/// The database without its fields of that name.
pub open spec fn without_property(
    database: TargetDatabaseView,
    name: Seq<char>,
) -> TargetDatabaseView {
    TargetDatabaseView {
        id: database.id,
        properties: database.properties.filter(
            |property: DatabasePropertyView| property.name != name,
        ),
    }
}

/// Whether `name` is one of the four field names that a page is written to.
pub open spec fn is_required_name(name: Seq<char>) -> bool {
    name == "Name"@ || name == "Image"@ || name == "URL"@ || name == "Tags"@
}

/// A database that lacks one of the four required fields does not pass the
/// check, whatever else it has.
pub proof fn lemma_missing_field_fails(database: TargetDatabaseView, name: Seq<char>)
    requires
        is_required_name(name),
        !has_property(database, name),
    ensures
        !has_expected_properties(database),
{
}

/// Taking any one of the four required fields out of a database makes the
/// check fail.
pub proof fn lemma_removed_field_fails(database: TargetDatabaseView, name: Seq<char>)
    requires
        is_required_name(name),
    ensures
        !has_expected_properties(without_property(database, name)),
{
    let kept = |property: DatabasePropertyView| property.name != name;
    let rest = without_property(database, name);
    assert forall|i: int| 0 <= i < rest.properties.len() implies (
    #[trigger] rest.properties[i]).name != name by {
        database.properties.lemma_filter_pred(kept, i);
    }
    lemma_missing_field_fails(rest, name);
}

/// The four field names are four different names.
pub proof fn lemma_field_names_differ()
    ensures
        "Name"@ != "URL"@,
        "Name"@ != "Tags"@,
        "Name"@ != "Image"@,
        "URL"@ != "Tags"@,
        "URL"@ != "Image"@,
        "Tags"@ != "Image"@,
{
    reveal_strlit("Name");
    reveal_strlit("URL");
    reveal_strlit("Tags");
    reveal_strlit("Image");
    assert("Name"@.len() == 4 && "URL"@.len() == 3 && "Tags"@.len() == 4 && "Image"@.len() == 5);
    assert("Name"@[0] != "Tags"@[0]);
}

/// Each property is written exactly when its source is there: a page without
/// a name, link, tags or image carries no `Name`, `URL`, `Tags` or `Image`
/// property at all. No name is written twice.
pub proof fn lemma_absent_sources_are_omitted(page: NewPageView)
    ensures
        writes_property(page_request(page), "Name"@) <==> page.name is Some,
        writes_property(page_request(page), "URL"@) <==> page.url is Some,
        writes_property(page_request(page), "Tags"@) <==> page.tags is Some,
        writes_property(page_request(page), "Image"@) <==> page.image_url is Some,
        page_request(page).well_formed(),
{
    lemma_field_names_differ();
    let written = page_request(page).properties;
    let names = present("Name"@, name_property(page.name));
    let urls = present("URL"@, url_property(page.url));
    let tags = present("Tags"@, tags_property(page.tags, existing_tag_options(page.database)));
    let images = present("Image"@, image_property(page.image_url));
    assert(written == names + urls + tags + images);
    if page.name is Some {
        assert(written[0].name == "Name"@);
    }
    if page.url is Some {
        assert(written[names.len() as int].name == "URL"@);
    }
    if page.tags is Some {
        assert(written[(names.len() + urls.len()) as int].name == "Tags"@);
    }
    if page.image_url is Some {
        assert(written[(names.len() + urls.len() + tags.len()) as int].name == "Image"@);
    }
}

/// A page without an image attaches no image block, and one without a link
/// no bookmark block.
pub proof fn lemma_absent_sources_attach_no_block(page: NewPageView)
    ensures
        page.image_url is None ==> forall|i: int|
            0 <= i < page_request(page).children->0.len() ==> !(
            #[trigger] page_request(page).children->0[i] is Image),
        page.url is None ==> forall|i: int|
            0 <= i < page_request(page).children->0.len() ==> !(
            #[trigger] page_request(page).children->0[i] is Bookmark),
{
}

fn has_property_named(database: &TargetDatabase, name: &str) -> (found: bool)
    ensures
        found == has_property(database.deep_view(), name@),
{
    let mut i: usize = 0;
    while i < database.properties.len()
        invariant
            i <= database.properties.len(),
            forall|j: int|
                0 <= j < i ==> (#[trigger] database.deep_view().properties[j]).name != name@,
        decreases database.properties.len() - i,
    {
        if same_text(database.properties[i].name.as_str(), name) {
            assert(database.deep_view().properties[i as int].name == name@);
            return true;
        }
        i += 1;
    }
    false
}

fn copy_options(options: &Vec<SelectOption>) -> (copy: Vec<SelectOption>)
    ensures
        copy.deep_view() == options.deep_view(),
{
    let mut copy: Vec<SelectOption> = Vec::new();
    let mut i: usize = 0;
    while i < options.len()
        invariant
            i <= options.len(),
            copy.deep_view() =~= options.deep_view().take(i as int),
        decreases options.len() - i,
    {
        let option = &options[i];
        let ghost before = copy.deep_view();
        copy.push(
            SelectOption {
                name: option.name.clone(),
                id: option.id.clone(),
                color: option.color,
            },
        );
        assert(copy.deep_view() =~= before.push(option.deep_view()));
        i += 1;
    }
    assert(copy.deep_view() =~= options.deep_view());
    copy
}

fn existing_tags(database: &TargetDatabase) -> (options: Vec<SelectOption>)
    ensures
        options.deep_view() == existing_tag_options(database.deep_view()),
{
    let ghost properties = database.deep_view().properties;
    let mut i: usize = 0;
    assert(properties.skip(0) =~= properties);
    while i < database.properties.len()
        invariant
            i <= database.properties.len(),
            properties == database.deep_view().properties,
            find_property(properties, "Tags"@) == find_property(properties.skip(i as int), "Tags"@),
        decreases database.properties.len() - i,
    {
        let property = &database.properties[i];
        proof {
            let here = properties.skip(i as int);
            assert(here[0] == property.deep_view());
            assert(here.drop_first() =~= properties.skip(i + 1));
        }
        if same_text(property.name.as_str(), "Tags") {
            return match &property.configuration {
                PropertyConfiguration::MultiSelect { options } => copy_options(options),
                PropertyConfiguration::Other => Vec::new(),
            };
        }
        i += 1;
    }
    Vec::new()
}

fn push_present(properties: &mut Vec<PageProperty>, name: &str, value: Option<PropertyValue>)
    ensures
        final(properties).deep_view() == old(properties).deep_view() + present(
            name@,
            value.deep_view(),
        ),
{
    let ghost before = properties.deep_view();
    match value {
        Some(v) => {
            let ghost added = PagePropertyView { name: name@, value: v.deep_view() };
            properties.push(PageProperty { name: String::from_str(name), value: v });
            assert(properties.deep_view() =~= before + seq![added]);
        },
        None => {
            assert(properties.deep_view() =~= before + Seq::<PagePropertyView>::empty());
        },
    }
}

impl Notion {
    /// Whether the database has all the fields that a page is written to.
    pub fn has_expected_database_properties(database: &TargetDatabase) -> (expected: bool)
        ensures
            expected == has_expected_properties(database.deep_view()),
    {
        has_property_named(database, "Name") && has_property_named(database, "Image")
            && has_property_named(database, "URL") && has_property_named(database, "Tags")
    }

    pub fn new(api_token: String) -> (client: Self)
        ensures
            client.api_token == api_token,
    {
        Notion { api_token }
    }

    /// Picks from the databases that a search returned the first one whose
    /// id, without its hyphens, is `database_id`.
    pub fn get_database_by_id(
        &self,
        search_results: Vec<TargetDatabase>,
        database_id: String,
    ) -> (found: Result<TargetDatabase, NotionError>)
        ensures
            match found {
                Ok(database) => find_database(search_results.deep_view(), database_id@) == Some(
                    database.deep_view(),
                ),
                Err(error) => error == NotionError::DatabaseNotFound && find_database(
                    search_results.deep_view(),
                    database_id@,
                ) is None,
            },
    {
        let ghost results = search_results.deep_view();
        let mut remaining = search_results;
        let mut i: usize = 0;
        assert(results.skip(0) =~= results);
        while i < remaining.len()
            invariant
                i <= remaining.len(),
                results == search_results.deep_view(),
                results == remaining.deep_view(),
                find_database(results, database_id@) == find_database(
                    results.skip(i as int),
                    database_id@,
                ),
            decreases remaining.len() - i,
        {
            proof {
                let here = results.skip(i as int);
                assert(here[0] == remaining[i as int].deep_view());
                assert(here.drop_first() =~= results.skip(i + 1));
            }
            let plain_id = remove_char(remaining[i].id.as_str(), '-');
            if plain_id == database_id {
                let database = remaining.remove(i);
                return Ok(database);
            }
            i += 1;
        }
        Err(NotionError::DatabaseNotFound)
    }

    /// Builds the request that creates `new_page`. Tags are reconciled
    /// against the options that the page's database already defines.
    pub fn create_page(&self, new_page: NewPage) -> (request: PageCreateRequest)
        ensures
            request.deep_view() == page_request(new_page.deep_view()),
            request.deep_view().well_formed(),
    {
        proof {
            lemma_absent_sources_are_omitted(new_page.deep_view());
        }
        let existing = existing_tags(&new_page.database);
        let mut properties: Vec<PageProperty> = Vec::new();
        assert(properties.deep_view() =~= Seq::<PagePropertyView>::empty());
        push_present(&mut properties, "Name", new_page.get_name_property());
        push_present(&mut properties, "URL", new_page.get_url_property());
        push_present(&mut properties, "Tags", new_page.get_tags_property(existing));
        push_present(&mut properties, "Image", new_page.get_image_property());
        assert(properties.deep_view() =~= page_properties(new_page.deep_view()));

        let mut children: Vec<CreateBlock> = Vec::new();
        match &new_page.image_url {
            Some(image_url) => {
                children.push(CreateBlock::Image { url: image_url.clone() });
            },
            None => {},
        }
        match &new_page.url {
            Some(url) => {
                children.push(CreateBlock::Bookmark { url: url.clone() });
            },
            None => {},
        }
        assert(children.deep_view() =~= image_block(new_page.image_url.deep_view())
            + bookmark_block(new_page.url.deep_view()));
        PageCreateRequest {
            parent_database_id: new_page.database.id,
            properties,
            children: Some(children),
        }
    }
}

} // verus!
