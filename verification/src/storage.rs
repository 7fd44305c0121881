//! The stored list of comment templates, as a value: adding, replacing and
//! deleting by id. Reading and writing the file is the caller's part.

use crate::models::{CommentTemplate, CommentTemplateView};
use vstd::prelude::*;

verus! {

/// The views of a list of templates, in order.
pub open spec fn template_views(templates: Seq<CommentTemplate>) -> Seq<CommentTemplateView> {
    templates.map_values(|t: CommentTemplate| t@)
}

/// The place of the first template at or after `from` that has this id.
pub open spec fn find_from(templates: Seq<CommentTemplateView>, id: Seq<char>, from: int) -> Option<
    int,
>
    decreases templates.len() - from,
{
    if from < 0 || from >= templates.len() {
        None
    } else if templates[from].id == id {
        Some(from)
    } else {
        find_from(templates, id, from + 1)
    }
}

/// The place of the first template that has this id.
pub open spec fn find_template(templates: Seq<CommentTemplateView>, id: Seq<char>) -> Option<int> {
    find_from(templates, id, 0)
}

/// What is said when no template has the id asked for.
pub open spec fn template_missing_text() -> Seq<char> {
    "模板不存在"@
}

/// What `find_from` finds is in range, has the id, and is the first such
/// place from `from` on; it finds nothing only where no such place is.
pub proof fn lemma_find_from(templates: Seq<CommentTemplateView>, id: Seq<char>, from: int)
    requires
        0 <= from,
    ensures
        match find_from(templates, id, from) {
            Some(p) => {
                &&& from <= p < templates.len()
                &&& templates[p].id == id
                &&& forall|j: int| from <= j < p ==> (#[trigger] templates[j]).id != id
            },
            None => forall|j: int|
                from <= j < templates.len() ==> (#[trigger] templates[j]).id != id,
        },
    decreases templates.len() - from,
{
    if from < templates.len() && templates[from].id != id {
        lemma_find_from(templates, id, from + 1);
    }
}

/// The place of the first template with this id, if there is one.
pub fn position_of(templates: &Vec<CommentTemplate>, id: &str) -> (found: Option<usize>)
    ensures
        match found {
            Some(p) => find_template(template_views(templates@), id@) == Some(p as int),
            None => find_template(template_views(templates@), id@) is None,
        },
{
    let wanted = String::from_str(id);
    let mut i: usize = 0;
    while i < templates.len()
        invariant
            i <= templates.len(),
            wanted@ == id@,
            find_template(template_views(templates@), id@) == find_from(
                template_views(templates@),
                id@,
                i as int,
            ),
        decreases templates.len() - i,
    {
        if templates[i].id == wanted {
            return Some(i);
        }
        i = i + 1;
    }
    None
}

/// Adds a template at the end of the list.
pub fn add_template(templates: &mut Vec<CommentTemplate>, template: CommentTemplate)
    ensures
        template_views(final(templates)@) == template_views(old(templates)@).push(template@),
{
    templates.push(template);
    assert(template_views(templates@) =~= template_views(old(templates)@).push(template@));
}

/// Replaces the first template that has the id of `template`. Fails,
/// changing nothing, exactly when no template has that id.
pub fn update_template(templates: &mut Vec<CommentTemplate>, template: CommentTemplate) -> (r:
    Result<(), String>)
    ensures
        match r {
            Ok(()) => {
                let found = find_template(template_views(old(templates)@), template@.id);
                &&& found is Some
                &&& template_views(final(templates)@) == template_views(old(templates)@).update(
                    found->0,
                    template@,
                )
            },
            Err(msg) => {
                &&& find_template(template_views(old(templates)@), template@.id) is None
                &&& final(templates)@ == old(templates)@
                &&& msg@ == template_missing_text()
            },
        },
{
    match position_of(templates, template.id.as_str()) {
        Some(pos) => {
            proof {
                lemma_find_from(template_views(templates@), template@.id, 0);
            }
            templates[pos] = template;
            assert(template_views(templates@) =~= template_views(old(templates)@).update(
                pos as int,
                template@,
            ));
            Ok(())
        },
        None => Err(String::from_str("模板不存在")),
    }
}

/// Deletes the first template that has this id. Fails, changing nothing,
/// exactly when no template has that id.
pub fn delete_template(templates: &mut Vec<CommentTemplate>, id: &str) -> (r: Result<(), String>)
    ensures
        match r {
            Ok(()) => {
                let found = find_template(template_views(old(templates)@), id@);
                &&& found is Some
                &&& template_views(final(templates)@) == template_views(old(templates)@).remove(
                    found->0,
                )
            },
            Err(msg) => {
                &&& find_template(template_views(old(templates)@), id@) is None
                &&& final(templates)@ == old(templates)@
                &&& msg@ == template_missing_text()
            },
        },
{
    match position_of(templates, id) {
        Some(pos) => {
            proof {
                lemma_find_from(template_views(templates@), id@, 0);
            }
            let _ = templates.remove(pos);
            assert(template_views(templates@) =~= template_views(old(templates)@).remove(
                pos as int,
            ));
            Ok(())
        },
        None => Err(String::from_str("模板不存在")),
    }
}

} // verus!
