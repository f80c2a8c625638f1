//! The guarantees of the routing table, proved once over the model.

use vstd::prelude::*;
use crate::handler::handle_model;
use crate::response::ResponseModel;
use crate::text::join_lines_spec;

verus! {

/// `needle` occurs contiguously inside `hay`.
pub open spec fn has_substring(hay: Seq<char>, needle: Seq<char>) -> bool {
    exists|j: int|
        0 <= j && j + needle.len() <= hay.len() && #[trigger] hay.subrange(
            j,
            j + needle.len() as int,
        ) == needle
}

/// The method words and paths of the routing table are pairwise
/// distinct.
proof fn lemma_route_words_distinct()
    ensures
        "/health"@ != "/items"@,
        "GET"@ != "POST"@,
        "GET"@ != "DELETE"@,
        "POST"@ != "DELETE"@,
{
    reveal_strlit("GET");
    reveal_strlit("POST");
    reveal_strlit("DELETE");
    reveal_strlit("/health");
    reveal_strlit("/items");
    assert("GET"@.len() == 3);
    assert("POST"@.len() == 4);
    assert("DELETE"@.len() == 6);
    assert("/health"@.len() == 7);
    assert("/items"@.len() == 6);
}

/// Every joined key occurs contiguously in the joined listing.
pub proof fn lemma_join_contains(ks: Seq<Seq<char>>, i: int)
    requires
        0 <= i < ks.len(),
    ensures
        has_substring(join_lines_spec(ks), ks[i]),
    decreases ks.len(),
{
    reveal_strlit("\n");
    assert("\n"@.len() == 1);
    let whole = join_lines_spec(ks);
    if ks.len() == 1 {
        let j: int = 0;
        assert(whole.subrange(j, j + ks[i].len() as int) =~= ks[i]);
    } else {
        let prefix = join_lines_spec(ks.drop_last());
        assert(whole == prefix + "\n"@ + ks.last());
        if i == ks.len() - 1 {
            let j = prefix.len() as int + 1;
            assert(whole.subrange(j, j + ks[i].len() as int) =~= ks[i]);
        } else {
            lemma_join_contains(ks.drop_last(), i);
            assert(ks.drop_last()[i] == ks[i]);
            let j = choose|j: int|
                0 <= j && j + ks[i].len() <= prefix.len() && #[trigger] prefix.subrange(
                    j,
                    j + ks[i].len() as int,
                ) == ks[i];
            assert(whole.subrange(j, j + ks[i].len() as int) =~= ks[i]);
        }
    }
}

/// The liveness probe always answers `200` with body `ok`, whatever
/// query parameter or body comes with the request, and leaves the store
/// alone.
pub proof fn lemma_health_always_ok(
    keys: Seq<Seq<char>>,
    key: Option<Seq<char>>,
    content: Seq<u8>,
)
    ensures
        handle_model(keys, "GET"@, "/health"@, key, content).0 == keys,
        handle_model(keys, "GET"@, "/health"@, key, content).1 == (ResponseModel {
            status: 200,
            body: "ok"@,
        }),
{
}

/// A create without the required `key` parameter is refused with `400`
/// before any store work: the keys are untouched.
pub proof fn lemma_post_without_key(keys: Seq<Seq<char>>, content: Seq<u8>)
    ensures
        handle_model(keys, "POST"@, "/items"@, None, content).0 == keys,
        handle_model(keys, "POST"@, "/items"@, None, content).1 == (ResponseModel {
            status: 400,
            body: "missing ?key=... for POST /items"@,
        }),
{
    lemma_route_words_distinct();
}

/// A delete without the required `key` parameter is refused with `400`
/// before any store work: the keys are untouched.
pub proof fn lemma_delete_without_key(keys: Seq<Seq<char>>, content: Seq<u8>)
    ensures
        handle_model(keys, "DELETE"@, "/items"@, None, content).0 == keys,
        handle_model(keys, "DELETE"@, "/items"@, None, content).1 == (ResponseModel {
            status: 400,
            body: "missing ?key=... for DELETE /items"@,
        }),
{
    lemma_route_words_distinct();
}

/// Listing an empty store answers `200` with exactly the sentinel body.
pub proof fn lemma_list_empty(key: Option<Seq<char>>, content: Seq<u8>)
    ensures
        handle_model(Seq::empty(), "GET"@, "/items"@, key, content).0
            == Seq::<Seq<char>>::empty(),
        handle_model(Seq::empty(), "GET"@, "/items"@, key, content).1 == (ResponseModel {
            status: 200,
            body: "no items"@,
        }),
{
    lemma_route_words_distinct();
}

/// A key just created is held by the store and occurs in the body of an
/// immediately following listing, which answers `200`.
pub proof fn lemma_create_then_list(
    keys: Seq<Seq<char>>,
    k: Seq<char>,
    content: Seq<u8>,
    key2: Option<Seq<char>>,
    content2: Seq<u8>,
)
    ensures
        ({
            let (held, created) = handle_model(keys, "POST"@, "/items"@, Some(k), content);
            let (after, listing) = handle_model(held, "GET"@, "/items"@, key2, content2);
            &&& created.status == 201
            &&& created.body == "created: "@ + k
            &&& held.contains(k)
            &&& after == held
            &&& listing.status == 200
            &&& has_substring(listing.body, k)
        }),
{
    lemma_route_words_distinct();
    let (held, _) = handle_model(keys, "POST"@, "/items"@, Some(k), content);
    if !keys.contains(k) {
        assert(held[held.len() - 1] == k);
    }
    let i = choose|i: int| 0 <= i < held.len() && held[i] == k;
    lemma_join_contains(held, i);
}

/// Deleting a key just created answers `200` with body `deleted: <key>`,
/// and a repeated delete of the same key answers exactly the same: the
/// handler survives deleting a key that is gone.
pub proof fn lemma_delete_after_create(keys: Seq<Seq<char>>, k: Seq<char>, content: Seq<u8>)
    ensures
        ({
            let (held, _) = handle_model(keys, "POST"@, "/items"@, Some(k), content);
            let (gone, first) = handle_model(held, "DELETE"@, "/items"@, Some(k), Seq::empty());
            let (still, second) = handle_model(gone, "DELETE"@, "/items"@, Some(k), Seq::empty());
            &&& first.status == 200
            &&& first.body == "deleted: "@ + k
            &&& second.status == 200
            &&& second.body == first.body
        }),
{
    lemma_route_words_distinct();
}

/// A path that is neither the probe nor the items collection answers
/// `404`, whatever the method, and leaves the store alone.
pub proof fn lemma_unknown_path(
    keys: Seq<Seq<char>>,
    method: Seq<char>,
    path: Seq<char>,
    key: Option<Seq<char>>,
    content: Seq<u8>,
)
    requires
        path != "/health"@,
        path != "/items"@,
    ensures
        handle_model(keys, method, path, key, content).0 == keys,
        handle_model(keys, method, path, key, content).1 == (ResponseModel {
            status: 404,
            body: "not found"@,
        }),
{
}

/// A method other than the three the items collection supports is
/// refused with `405`, and the store is left alone.
pub proof fn lemma_items_method_not_allowed(
    keys: Seq<Seq<char>>,
    method: Seq<char>,
    key: Option<Seq<char>>,
    content: Seq<u8>,
)
    requires
        method != "GET"@,
        method != "POST"@,
        method != "DELETE"@,
    ensures
        handle_model(keys, method, "/items"@, key, content).0 == keys,
        handle_model(keys, method, "/items"@, key, content).1 == (ResponseModel {
            status: 405,
            body: "method not allowed"@,
        }),
{
    lemma_route_words_distinct();
}

} // verus!
