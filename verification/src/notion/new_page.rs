//! The page to create, and the value of each of its properties.

use vstd::prelude::*;
use crate::notion::model::{
    Color, FileReference, FileReferenceView, PropertyValue, PropertyValueView, RichText,
    RichTextView, SelectOption, SelectOptionView, SelectedValue, SelectedValueView, TargetDatabase,
    TargetDatabaseView,
};

verus! {

/// What one message contributes to the store: the database to write to and
/// the fields extracted from the message. A field that is `None` is left out
/// of the page altogether.
#[derive(Clone, Debug, PartialEq)]
pub struct NewPage {
    pub database: TargetDatabase,
    pub name: Option<String>,
    pub url: Option<String>,
    pub image_url: Option<String>,
    pub tags: Option<Vec<String>>,
}

pub struct NewPageView {
    pub database: TargetDatabaseView,
    pub name: Option<Seq<char>>,
    pub url: Option<Seq<char>>,
    pub image_url: Option<Seq<char>>,
    pub tags: Option<Seq<Seq<char>>>,
}

impl DeepView for NewPage {
    type V = NewPageView;

    open spec fn deep_view(&self) -> NewPageView {
        NewPageView {
            database: self.database.deep_view(),
            name: self.name.deep_view(),
            url: self.url.deep_view(),
            image_url: self.image_url.deep_view(),
            tags: self.tags.deep_view(),
        }
    }
}

/// The title property: one run of plain text holding the name.
pub open spec fn name_property(name: Option<Seq<char>>) -> Option<PropertyValueView> {
    match name {
        Some(text) => Some(
            PropertyValueView::Title {
                id: Seq::empty(),
                title: seq![RichTextView { content: text, plain_text: text }],
            },
        ),
        None => None,
    }
}

/// The link property.
pub open spec fn url_property(url: Option<Seq<char>>) -> Option<PropertyValueView> {
    match url {
        Some(link) => Some(PropertyValueView::Url { id: Seq::empty(), url: Some(link) }),
        None => None,
    }
}

/// The files property: the image as one outside file called "Image".
pub open spec fn image_property(image_url: Option<Seq<char>>) -> Option<PropertyValueView> {
    match image_url {
        Some(link) => Some(
            PropertyValueView::Files {
                id: Seq::empty(),
                files: Some(seq![FileReferenceView { name: "Image"@, url: link }]),
            },
        ),
        None => None,
    }
}

/// The first of `existing` whose name is exactly `name`.
pub open spec fn find_option(existing: Seq<SelectOptionView>, name: Seq<char>) -> Option<
    SelectOptionView,
>
    decreases existing.len(),
{
    if existing.len() == 0 {
        None
    } else if existing[0].name == name {
        Some(existing[0])
    } else {
        find_option(existing.drop_first(), name)
    }
}

/// A tag that the database knows keeps the known option's id, name and
/// colour; an unknown one goes out by name alone, in the default colour.
pub open spec fn reconcile_tag(
    tag: Seq<char>,
    existing: Seq<SelectOptionView>,
) -> SelectedValueView {
    match find_option(existing, tag) {
        Some(known) => SelectedValueView {
            id: Some(known.id),
            name: Some(known.name),
            color: known.color,
        },
        None => SelectedValueView { id: None, name: Some(tag), color: Color::Default },
    }
}

/// Each tag reconciled, in the order given; repeated tags stay repeated.
pub open spec fn reconcile_tags(tags: Seq<Seq<char>>, existing: Seq<SelectOptionView>) -> Seq<
    SelectedValueView,
> {
    Seq::new(tags.len(), |i: int| reconcile_tag(tags[i], existing))
}

/// The tags property.
pub open spec fn tags_property(
    tags: Option<Seq<Seq<char>>>,
    existing: Seq<SelectOptionView>,
) -> Option<PropertyValueView> {
    match tags {
        Some(names) => Some(
            PropertyValueView::MultiSelect {
                id: Seq::empty(),
                multi_select: Some(reconcile_tags(names, existing)),
            },
        ),
        None => None,
    }
}

/// A tag named like an option of the database is written with that option's
/// id and colour: those of the first option of that name.
pub proof fn lemma_known_tag_keeps_identity(
    tag: Seq<char>,
    existing: Seq<SelectOptionView>,
    at: int,
)
    requires
        0 <= at < existing.len(),
        existing[at].name == tag,
        forall|j: int| 0 <= j < at ==> existing[j].name != tag,
    ensures
        reconcile_tag(tag, existing) == (SelectedValueView {
            id: Some(existing[at].id),
            name: Some(tag),
            color: existing[at].color,
        }),
    decreases at,
{
    if at > 0 {
        let rest = existing.drop_first();
        assert(existing[0].name != tag);
        assert forall|j: int| 0 <= j < at - 1 implies rest[j].name != tag by {
            assert(rest[j] == existing[j + 1]);
        }
        lemma_known_tag_keeps_identity(tag, rest, at - 1);
    }
}

/// A tag that no option of the database is named like is written by its name
/// alone: no id, the default colour.
pub proof fn lemma_unknown_tag_has_no_id(tag: Seq<char>, existing: Seq<SelectOptionView>)
    requires
        forall|j: int| 0 <= j < existing.len() ==> existing[j].name != tag,
    ensures
        reconcile_tag(tag, existing) == (SelectedValueView {
            id: None,
            name: Some(tag),
            color: Color::Default,
        }),
    decreases existing.len(),
{
    if existing.len() > 0 {
        let rest = existing.drop_first();
        assert(existing[0].name != tag);
        assert forall|j: int| 0 <= j < rest.len() implies rest[j].name != tag by {
            assert(rest[j] == existing[j + 1]);
        }
        lemma_unknown_tag_has_no_id(tag, rest);
    }
}

/// Reconciles one tag against the options that the database defines.
pub fn reconcile(tag: &String, existing_tags: &Vec<SelectOption>) -> (value: SelectedValue)
    ensures
        value.deep_view() == reconcile_tag(tag@, existing_tags.deep_view()),
{
    let ghost existing = existing_tags.deep_view();
    let mut i: usize = 0;
    assert(existing.skip(0) =~= existing);
    while i < existing_tags.len()
        invariant
            i <= existing_tags.len(),
            existing == existing_tags.deep_view(),
            find_option(existing, tag@) == find_option(existing.skip(i as int), tag@),
        decreases existing_tags.len() - i,
    {
        let candidate = &existing_tags[i];
        proof {
            let here = existing.skip(i as int);
            assert(here[0] == candidate.deep_view());
            assert(here.drop_first() =~= existing.skip(i + 1));
        }
        if candidate.name == *tag {
            return SelectedValue {
                id: Some(candidate.id.clone()),
                name: Some(candidate.name.clone()),
                color: candidate.color,
            };
        }
        i += 1;
    }
    SelectedValue { id: None, name: Some(tag.clone()), color: Color::Default }
}

impl NewPage {
    fn empty_id(&self) -> (id: String)
        ensures
            id@ == Seq::<char>::empty(),
    {
        String::new()
    }

    /// The value of the "Name" field, if the page has a name.
    pub fn get_name_property(&self) -> (property: Option<PropertyValue>)
        ensures
            property.deep_view() == name_property(self.name.deep_view()),
    {
        match &self.name {
            Some(name) => {
                let mut title: Vec<RichText> = Vec::new();
                title.push(RichText { content: name.clone(), plain_text: name.clone() });
                assert(title.deep_view() =~= seq![
                    RichTextView { content: name@, plain_text: name@ },
                ]);
                Some(PropertyValue::Title { id: self.empty_id(), title })
            },
            None => None,
        }
    }

    /// The value of the "URL" field, if a link was found.
    pub fn get_url_property(&self) -> (property: Option<PropertyValue>)
        ensures
            property.deep_view() == url_property(self.url.deep_view()),
    {
        match &self.url {
            Some(url) => Some(PropertyValue::Url { id: self.empty_id(), url: Some(url.clone()) }),
            None => None,
        }
    }

    /// The value of the "Image" field, if an image was uploaded.
    pub fn get_image_property(&self) -> (property: Option<PropertyValue>)
        ensures
            property.deep_view() == image_property(self.image_url.deep_view()),
    {
        match &self.image_url {
            Some(image_url) => {
                let mut files: Vec<FileReference> = Vec::new();
                files.push(
                    FileReference { name: String::from_str("Image"), url: image_url.clone() },
                );
                assert(files.deep_view() =~= seq![
                    FileReferenceView { name: "Image"@, url: image_url@ },
                ]);
                Some(PropertyValue::Files { id: self.empty_id(), files: Some(files) })
            },
            None => None,
        }
    }

    /// The value of the "Tags" field, if tags were found: each tag reconciled
    /// against `existing_tags`.
    pub fn get_tags_property(&self, existing_tags: Vec<SelectOption>) -> (property: Option<
        PropertyValue,
    >)
        ensures
            property.deep_view() == tags_property(
                self.tags.deep_view(),
                existing_tags.deep_view(),
            ),
    {
        match &self.tags {
            Some(tags) => {
                let ghost wanted = reconcile_tags(tags.deep_view(), existing_tags.deep_view());
                let mut values: Vec<SelectedValue> = Vec::new();
                let mut i: usize = 0;
                while i < tags.len()
                    invariant
                        i <= tags.len(),
                        wanted == reconcile_tags(tags.deep_view(), existing_tags.deep_view()),
                        values.deep_view() =~= wanted.take(i as int),
                    decreases tags.len() - i,
                {
                    let value = reconcile(&tags[i], &existing_tags);
                    let ghost before = values.deep_view();
                    let ghost added = value.deep_view();
                    values.push(value);
                    proof {
                        assert(tags.deep_view()[i as int] == tags[i as int]@);
                        assert(values.deep_view() =~= before.push(added));
                        assert(wanted.take(i + 1) =~= wanted.take(i as int).push(wanted[i as int]));
                    }
                    i += 1;
                }
                assert(values.deep_view() =~= wanted);
                Some(PropertyValue::MultiSelect { id: self.empty_id(), multi_select: Some(values) })
            },
            None => None,
        }
    }
}

} // verus!
