//! Making and revising comment templates: a new template gets a fresh id
//! and the time of its making; a revised one keeps both and notes when it
//! was revised.

use crate::models::{CommentTemplate, CommentTemplateView};
use crate::outside::new_uuid;
use crate::storage::{
    add_template, find_template, lemma_find_from, position_of, template_missing_text,
    template_views,
};
use vstd::prelude::*;

verus! {

/// A template made at time `now`.
pub open spec fn made(id: Seq<char>, name: Seq<char>, content: Seq<char>, now: i64) -> CommentTemplateView {
    CommentTemplateView { id, name, content, created_at: now, updated_at: now }
}

/// The template `t` with a new name and text, revised at time `now`.
pub open spec fn revised(t: CommentTemplateView, name: Seq<char>, content: Seq<char>, now: i64) -> CommentTemplateView {
    CommentTemplateView { name, content, updated_at: now, ..t }
}

/// Makes a template with the given id at time `now` and adds it at the end
/// of the list.
pub fn create_template_at(
    templates: &mut Vec<CommentTemplate>,
    id: String,
    name: String,
    content: String,
    now: i64,
) -> (created: CommentTemplate)
    ensures
        created@ == made(id@, name@, content@, now),
        template_views(final(templates)@) == template_views(old(templates)@).push(created@),
{
    let template = CommentTemplate { id, name, content, created_at: now, updated_at: now };
    let created = template.clone();
    add_template(templates, template);
    created
}

/// Makes a template with a fresh id at time `now` and adds it at the end
/// of the list.
pub fn create_template(
    templates: &mut Vec<CommentTemplate>,
    name: String,
    content: String,
    now: i64,
) -> (created: CommentTemplate)
    ensures
        created@ == made(created@.id, name@, content@, now),
        template_views(final(templates)@) == template_views(old(templates)@).push(created@),
{
    let id = new_uuid();
    create_template_at(templates, id, name, content, now)
}

/// Gives the first template with this id a new name and text, at time
/// `now`, and returns it as revised. Its id and the time of its making
/// stay. Fails, changing nothing, exactly when no template has that id.
pub fn update_template(
    templates: &mut Vec<CommentTemplate>,
    id: String,
    name: String,
    content: String,
    now: i64,
) -> (r: Result<CommentTemplate, String>)
    ensures
        match r {
            Ok(updated) => {
                let found = find_template(template_views(old(templates)@), id@);
                &&& found is Some
                &&& updated@ == revised(
                    template_views(old(templates)@)[found->0],
                    name@,
                    content@,
                    now,
                )
                &&& template_views(final(templates)@) == template_views(old(templates)@).update(
                    found->0,
                    updated@,
                )
            },
            Err(msg) => {
                &&& find_template(template_views(old(templates)@), id@) is None
                &&& final(templates)@ == old(templates)@
                &&& msg@ == template_missing_text()
            },
        },
{
    match position_of(templates, id.as_str()) {
        Some(pos) => {
            proof {
                lemma_find_from(template_views(templates@), id@, 0);
            }
            let template = CommentTemplate {
                id,
                name,
                content,
                created_at: templates[pos].created_at,
                updated_at: now,
            };
            let updated = template.clone();
            templates[pos] = template;
            assert(template_views(templates@) =~= template_views(old(templates)@).update(
                pos as int,
                updated@,
            ));
            Ok(updated)
        },
        None => Err(String::from_str("模板不存在")),
    }
}

} // verus!
