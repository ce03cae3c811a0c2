//! Recipe listings and recipe tags.
use crate::name::{is_valid_name, name_rules};
use vstd::prelude::*;
use vstd::string::*;

verus! {

/// No text appears twice in `tags`.
pub open spec fn distinct_texts(tags: Seq<Seq<char>>) -> bool {
    forall|i: int, j: int| 0 <= i < j < tags.len() ==> tags[i] != tags[j]
}

/// The texts of a list of strings.
pub open spec fn texts(tags: Seq<String>) -> Seq<Seq<char>> {
    tags.map_values(|t: String| t@)
}

/// Why the tags of a recipe could not be changed.
#[derive(Debug, Clone, PartialEq, Eq)]
pub enum TagError {
    /// The tag is no valid name.
    InvalidName,
    /// The recipe would carry a tag twice, which Pilatus refuses.
    Duplicate,
}

/// Whether `tag` is among `tags`.
fn has_tag(tags: &Vec<String>, tag: &String) -> (r: bool)
    ensures
        r == texts(tags@).contains(tag@),
{
    let mut i: usize = 0;
    while i < tags.len()
        invariant
            0 <= i <= tags@.len(),
            forall|j: int| 0 <= j < i ==> tags@[j]@ != tag@,
        decreases tags@.len() - i,
    {
        if tags[i] == *tag {
            assert(texts(tags@)[i as int] == tag@);
            return true;
        }
        i = i + 1;
    }
    assert forall|j: int| 0 <= j < texts(tags@).len() implies texts(tags@)[j] != tag@ by {
        assert(texts(tags@)[j] == tags@[j]@);
    }
    false
}

/// Whether no tag appears twice, as Pilatus requires of recipe metadata.
pub fn tags_are_distinct(tags: &Vec<String>) -> (r: bool)
    ensures
        r == distinct_texts(texts(tags@)),
{
    let mut i: usize = 0;
    while i < tags.len()
        invariant
            0 <= i <= tags@.len(),
            forall|a: int, b: int| 0 <= a < b < tags@.len() && a < i ==> tags@[a]@ != tags@[b]@,
        decreases tags@.len() - i,
    {
        let mut j: usize = i + 1;
        while j < tags.len()
            invariant
                i < tags@.len(),
                i + 1 <= j <= tags@.len(),
                forall|a: int, b: int| 0 <= a < b < tags@.len() && a < i ==> tags@[a]@ != tags@[b]@,
                forall|b: int| i < b < j ==> tags@[i as int]@ != tags@[b]@,
            decreases tags@.len() - j,
        {
            if tags[i] == tags[j] {
                assert(texts(tags@)[i as int] == texts(tags@)[j as int]);
                return false;
            }
            j = j + 1;
        }
        i = i + 1;
    }
    true
}

/// The tags of a recipe once `tag` is added: the tag must be a valid name,
/// and, as Pilatus refuses metadata that names a tag twice, it must not be
/// there already.
pub fn add_tag(tags: &Vec<String>, tag: &str) -> (r: Result<Vec<String>, TagError>)
    ensures
        !name_rules(tag@) ==> r == Err::<Vec<String>, TagError>(TagError::InvalidName),
        name_rules(tag@) ==> match r {
            Ok(new_tags) => distinct_texts(texts(tags@.push(new_tags@.last())))
                && new_tags@.len() == tags@.len() + 1
                && new_tags@.take(tags@.len() as int) == tags@
                && new_tags@.last()@ == tag@,
            Err(e) => e == TagError::Duplicate && !distinct_texts(texts(tags@) + seq![tag@]),
        },
{
    if !is_valid_name(tag) {
        return Err(TagError::InvalidName);
    }
    let new_tag = tag.to_string();
    proof {
        vstd::string::to_string_from_display_ensures_for_str(tag, new_tag);
    }
    let mut new_tags = tags.clone();
    assert(new_tags@ =~= tags@);
    new_tags.push(new_tag);
    assert(texts(new_tags@) =~= texts(tags@) + seq![tag@]);
    if tags_are_distinct(&new_tags) {
        assert(new_tags@.take(tags@.len() as int) =~= tags@);
        assert(tags@.push(new_tags@.last()) =~= new_tags@);
        Ok(new_tags)
    } else {
        Err(TagError::Duplicate)
    }
}

/// The tags of a recipe once every `tag` is removed, the others in order.
pub fn remove_tag(tags: &Vec<String>, tag: &String) -> (r: Vec<String>)
    ensures
        texts(r@) == texts(tags@).filter(|t: Seq<char>| t != tag@),
{
    let ghost pred = |t: Seq<char>| t != tag@;
    let ghost initial = texts(tags@);
    let mut kept: Vec<String> = Vec::new();
    let mut i: usize = 0;
    proof {
        assert(initial.take(0) =~= Seq::<Seq<char>>::empty());
        assert(texts(kept@) =~= Seq::<Seq<char>>::empty());
        reveal_with_fuel(Seq::<_>::filter, 1);
    }
    while i < tags.len()
        invariant
            initial == texts(tags@),
            pred == (|t: Seq<char>| t != tag@),
            0 <= i <= tags@.len(),
            texts(kept@) == initial.take(i as int).filter(pred),
        decreases tags@.len() - i,
    {
        proof {
            assert(initial.take(i + 1).drop_last() =~= initial.take(i as int));
            assert(initial.take(i + 1).last() == tags@[i as int]@);
            reveal_with_fuel(Seq::<_>::filter, 1);
        }
        if tags[i] != *tag {
            let t = tags[i].clone();
            let ghost before = kept@;
            kept.push(t);
            assert(texts(kept@) =~= texts(before).push(tags@[i as int]@));
        }
        i = i + 1;
    }
    proof {
        assert(initial.take(tags@.len() as int) =~= initial);
    }
    kept
}

/// A recipe as listed: its id, the recipe, and whether it is the active one.
#[derive(Debug, Clone)]
pub struct RecipeInfo<R> {
    pub id: String,
    pub recipe: R,
    pub is_active: bool,
}

/// Lists recipes (given by id, in their order) and marks the active one.
pub fn list_recipes<R>(recipes: Vec<(String, R)>, active_id: &String) -> (r: Vec<RecipeInfo<R>>)
    ensures
        r@.len() == recipes@.len(),
        forall|i: int|
            0 <= i < r@.len() ==> (#[trigger] r@[i]).id == recipes@[i].0 && r@[i].recipe
                == recipes@[i].1 && r@[i].is_active == (recipes@[i].0@ == active_id@),
{
    let ghost initial = recipes@;
    let mut rest = recipes;
    let mut infos: Vec<RecipeInfo<R>> = Vec::new();
    while rest.len() > 0
        invariant
            rest@.len() <= initial.len(),
            rest@ == initial.skip(initial.len() - rest@.len()),
            infos@.len() == initial.len() - rest@.len(),
            forall|i: int|
                0 <= i < infos@.len() ==> (#[trigger] infos@[i]).id == initial[i].0
                    && infos@[i].recipe == initial[i].1 && infos@[i].is_active == (
                initial[i].0@ == active_id@),
        decreases rest@.len(),
    {
        let ghost done = initial.len() - rest@.len();
        let (id, recipe) = rest.remove(0);
        proof {
            assert(initial[done] == (id, recipe));
            assert(rest@ =~= initial.skip(done + 1));
        }
        let is_active = id == *active_id;
        infos.push(RecipeInfo { id, recipe, is_active });
    }
    infos
}

/// Removing a tag that was just added leaves the tags as they were, when the
/// tags were distinct before.
pub proof fn lemma_remove_undoes_add(tags: Seq<Seq<char>>, tag: Seq<char>)
    requires
        !tags.contains(tag),
    ensures
        (tags + seq![tag]).filter(|t: Seq<char>| t != tag) == tags,
    decreases tags.len(),
{
    reveal_with_fuel(Seq::<_>::filter, 1);
    assert((tags + seq![tag]).drop_last() =~= tags);
    lemma_filter_keeps_others(tags, tag);
}

/// Filtering out a tag that is not there keeps all tags.
proof fn lemma_filter_keeps_others(tags: Seq<Seq<char>>, tag: Seq<char>)
    requires
        !tags.contains(tag),
    ensures
        tags.filter(|t: Seq<char>| t != tag) == tags,
    decreases tags.len(),
{
    reveal_with_fuel(Seq::<_>::filter, 1);
    if tags.len() > 0 {
        let rest = tags.drop_last();
        assert(!rest.contains(tag)) by {
            if rest.contains(tag) {
                let k = choose|k: int| 0 <= k < rest.len() && rest[k] == tag;
                assert(tags[k] == tag);
            }
        }
        lemma_filter_keeps_others(rest, tag);
        assert(tags.last() != tag) by {
            assert(tags[tags.len() - 1] == tags.last());
        }
        assert(rest.push(tags.last()) =~= tags);
    } else {
        assert(tags.filter(|t: Seq<char>| t != tag) =~= tags);
    }
}

/// The first listed recipe with this id, if there is one.
pub fn find_recipe<'a, R>(recipes: &'a Vec<RecipeInfo<R>>, id: &str) -> (r: Option<&'a RecipeInfo<R>>)
    ensures
        r is None <==> forall|i: int| 0 <= i < recipes@.len() ==> (#[trigger] recipes@[i]).id@ != id@,
        r matches Some(info) ==> exists|i: int|
            0 <= i < recipes@.len() && recipes@[i] == *info && info.id@ == id@ && forall|j: int|
                0 <= j < i ==> (#[trigger] recipes@[j]).id@ != id@,
{
    let mut i: usize = 0;
    while i < recipes.len()
        invariant
            0 <= i <= recipes@.len(),
            forall|j: int| 0 <= j < i ==> (#[trigger] recipes@[j]).id@ != id@,
        decreases recipes@.len() - i,
    {
        if crate::text::text_equals(recipes[i].id.as_str(), id) {
            return Some(&recipes[i]);
        }
        i = i + 1;
    }
    None
}

/// The error of a tag change for a recipe that is not listed.
pub fn unknown_recipe_message(id: &str) -> (r: String)
    ensures
        r@ == "Recipe "@ + id@ + " doesn't exist"@,
{
    let mut m = String::from_str("Recipe ");
    m.append(id);
    m.append(" doesn't exist");
    m
}

/// The status a recipe row shows.
pub fn recipe_status_label(is_active: bool) -> (r: &'static str)
    ensures
        r@ == if is_active {
            "\u{25cf} Active"@
        } else {
            "\u{25cb} Inactive"@
        },
{
    if is_active {
        "\u{25cf} Active"
    } else {
        "\u{25cb} Inactive"
    }
}

/// The HTTP methods of the recipe requests.
#[derive(Debug, Clone, Copy, PartialEq, Eq, Structural)]
pub enum HttpMethod {
    Get,
    Put,
    Delete,
}

/// A request of the recipe list to the server.
#[derive(Debug, Clone)]
pub enum RecipeRequest {
    /// Start the recipe with this id.
    Activate(String),
    /// Clone the recipe with this id.
    Duplicate(String),
    /// Delete the recipe with this id.
    Delete(String),
    /// Download the recipe with this id.
    Export(String),
    /// Replace the tags of the recipe with this id.
    UpdateMeta(String),
    /// Commit the changes of the active recipe.
    Commit,
    /// Create a recipe with default settings.
    NewDefault,
}

impl RecipeRequest {
    /// The address the request goes to.
    pub fn url(&self) -> (r: String)
        ensures
            r@ == match self {
                RecipeRequest::Activate(id) => "/api/recipe/start/"@ + id@,
                RecipeRequest::Duplicate(id) => "/api/recipe/"@ + id@ + "/clone"@,
                RecipeRequest::Delete(id) => "/api/recipe/"@ + id@,
                RecipeRequest::Export(id) => "/api/recipe/"@ + id@ + "/export"@,
                RecipeRequest::UpdateMeta(id) => "/api/recipe/"@ + id@ + "/meta"@,
                RecipeRequest::Commit => "/api/recipe/commit"@,
                RecipeRequest::NewDefault => "/api/recipe/new_default"@,
            },
    {
        match self {
            RecipeRequest::Activate(id) => {
                let mut u = String::from_str("/api/recipe/start/");
                u.append(id.as_str());
                u
            },
            RecipeRequest::Duplicate(id) => {
                let mut u = String::from_str("/api/recipe/");
                u.append(id.as_str());
                u.append("/clone");
                u
            },
            RecipeRequest::Delete(id) => {
                let mut u = String::from_str("/api/recipe/");
                u.append(id.as_str());
                u
            },
            RecipeRequest::Export(id) => {
                let mut u = String::from_str("/api/recipe/");
                u.append(id.as_str());
                u.append("/export");
                u
            },
            RecipeRequest::UpdateMeta(id) => {
                let mut u = String::from_str("/api/recipe/");
                u.append(id.as_str());
                u.append("/meta");
                u
            },
            RecipeRequest::Commit => String::from_str("/api/recipe/commit"),
            RecipeRequest::NewDefault => String::from_str("/api/recipe/new_default"),
        }
    }

    /// The method the request is sent with.
    pub fn method(&self) -> (r: HttpMethod)
        ensures
            r == match self {
                RecipeRequest::Delete(_) => HttpMethod::Delete,
                RecipeRequest::Export(_) => HttpMethod::Get,
                _ => HttpMethod::Put,
            },
    {
        match self {
            RecipeRequest::Delete(_) => HttpMethod::Delete,
            RecipeRequest::Export(_) => HttpMethod::Get,
            _ => HttpMethod::Put,
        }
    }

    /// Whether the row of a recipe offers the request: the active recipe can
    /// be neither started again nor deleted.
    pub fn offered_for(&self, is_active: bool) -> (r: bool)
        ensures
            r == match self {
                RecipeRequest::Activate(_) | RecipeRequest::Delete(_) => !is_active,
                _ => true,
            },
    {
        match self {
            RecipeRequest::Activate(_) | RecipeRequest::Delete(_) => !is_active,
            _ => true,
        }
    }
}

/// Removing a tag keeps the tags a valid set of recipe tags: no tag appears
/// twice afterwards, and the removed one is gone.
pub proof fn lemma_remove_keeps_tags_distinct(tags: Seq<Seq<char>>, tag: Seq<char>)
    requires
        distinct_texts(tags),
    ensures
        distinct_texts(tags.filter(|t: Seq<char>| t != tag)),
        !tags.filter(|t: Seq<char>| t != tag).contains(tag),
    decreases tags.len(),
{
    let kept = tags.filter(|t: Seq<char>| t != tag);
    reveal_with_fuel(Seq::<_>::filter, 1);
    if tags.len() > 0 {
        let rest = tags.drop_last();
        assert(distinct_texts(rest)) by {
            assert forall|i: int, j: int| 0 <= i < j < rest.len() implies rest[i] != rest[j] by {
                assert(rest[i] == tags[i] && rest[j] == tags[j]);
            }
        }
        lemma_remove_keeps_tags_distinct(rest, tag);
        let rest_kept = rest.filter(|t: Seq<char>| t != tag);
        if tags.last() != tag {
            assert(kept == rest_kept.push(tags.last()));
            assert(!rest_kept.contains(tags.last())) by {
                if rest_kept.contains(tags.last()) {
                    rest.lemma_filter_contains_rev(|t: Seq<char>| t != tag, tags.last());
                    let m = choose|m: int| 0 <= m < rest.len() && rest[m] == tags.last();
                    assert(tags[m] == tags[tags.len() - 1]);
                }
            }
            assert forall|i: int, j: int| 0 <= i < j < kept.len() implies kept[i] != kept[j] by {
                if j == kept.len() - 1 {
                    assert(kept[j] == tags.last());
                    assert(kept[i] == rest_kept[i]);
                } else {
                    assert(kept[i] == rest_kept[i] && kept[j] == rest_kept[j]);
                }
            }
            assert(!kept.contains(tag)) by {
                if kept.contains(tag) {
                    let k = choose|k: int| 0 <= k < kept.len() && kept[k] == tag;
                    if k < rest_kept.len() {
                        assert(rest_kept[k] == tag);
                    }
                }
            }
        } else {
            assert(kept == rest_kept);
        }
    } else {
        assert(kept =~= Seq::<Seq<char>>::empty());
    }
}

} // verus!
