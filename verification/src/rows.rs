//! Turning the rows of the export into the records of a run.

use vstd::prelude::*;
use itertools::Either;
use itertools::Itertools;
use crate::article::Article;

verus! {

/// The errors among the rows, in the order of the rows.
pub open spec fn row_errors(rows: Seq<Result<Article, String>>) -> Seq<String> {
    rows.filter_map(
        |row: Result<Article, String>|
            match row {
                Err(e) => Some(e),
                Ok(_) => None::<String>,
            },
    )
}

/// The records among the rows, in the order of the rows.
pub open spec fn row_articles(rows: Seq<Result<Article, String>>) -> Seq<Article> {
    rows.filter_map(
        |row: Result<Article, String>|
            match row {
                Ok(article) => Some(article),
                Err(_) => None::<Article>,
            },
    )
}

/// The message for an export that holds rows which could not be read: a
/// heading that names the file, then each error on a line of its own.
pub open spec fn failure_message(file_path: Seq<char>, errors: Seq<String>) -> Seq<char>
    decreases errors.len(),
{
    if errors.len() == 0 {
        "For the file "@ + file_path + " the following CSV parsing errors occurred:"@
    } else {
        failure_message(file_path, errors.drop_last()) + "\n"@ + errors.last()@
    }
}

/// Splits the rows with `itertools::Itertools::partition_map`, which hands
/// each item to one of two collections and keeps the order of the items in
/// both: the errors go to the first, the records to the second.
#[verifier::external_body]
fn split_rows(rows: Vec<Result<Article, String>>) -> (r: (Vec<String>, Vec<Article>))
    ensures
        r.0@ == row_errors(rows@),
        r.1@ == row_articles(rows@),
{
    rows.into_iter().partition_map(
        |row| match row {
            Err(e) => Either::Left(e),
            Ok(article) => Either::Right(article),
        },
    )
}

/// Where no row is an error, the records are the rows, one for one.
pub proof fn rows_without_errors(rows: Seq<Result<Article, String>>)
    requires
        row_errors(rows).len() == 0,
    ensures
        row_articles(rows).len() == rows.len(),
        forall|i: int| 0 <= i < rows.len() ==> #[trigger] rows[i] == Ok::<Article, String>(
            row_articles(rows)[i],
        ),
    decreases rows.len(),
{
    if rows.len() > 0 {
        let front = rows.drop_last();
        match rows.last() {
            Err(e) => {
                assert(row_errors(rows) == row_errors(front) + seq![e]);
            },
            Ok(article) => {
                assert(row_errors(rows) == row_errors(front));
                assert(row_articles(rows) == row_articles(front) + seq![article]);
                rows_without_errors(front);
                assert forall|i: int| 0 <= i < rows.len() implies #[trigger] rows[i] == Ok::<
                    Article,
                    String,
                >(row_articles(rows)[i]) by {
                    if i < front.len() {
                        assert(front[i] == rows[i]);
                    }
                }
            },
        }
    }
}

/// The records of an export. `Ok` with all records, in the order of the
/// rows, exactly where every row could be read; else `Err` with every
/// error, in the order of the rows.
pub fn collect_articles(rows: Vec<Result<Article, String>>) -> (r: Result<
    Vec<Article>,
    Vec<String>,
>)
    ensures
        r is Ok <==> forall|i: int| 0 <= i < rows@.len() ==> (#[trigger] rows@[i]) is Ok,
        r matches Ok(articles) ==> {
            &&& articles@ == row_articles(rows@)
            &&& articles@.len() == rows@.len()
            &&& forall|i: int|
                0 <= i < rows@.len() ==> #[trigger] rows@[i] == Ok::<Article, String>(articles@[i])
        },
        r matches Err(errors) ==> errors@ == row_errors(rows@) && errors@.len() > 0,
{
    let ghost given = rows@;
    let (errors, articles) = split_rows(rows);
    if errors.len() == 0 {
        proof {
            rows_without_errors(given);
        }
        Ok(articles)
    } else {
        proof {
            if forall|i: int| 0 <= i < given.len() ==> (#[trigger] given[i]) is Ok {
                all_ok_rows_have_no_errors(given);
            }
        }
        Err(errors)
    }
}

proof fn all_ok_rows_have_no_errors(rows: Seq<Result<Article, String>>)
    requires
        forall|i: int| 0 <= i < rows.len() ==> (#[trigger] rows[i]) is Ok,
    ensures
        row_errors(rows).len() == 0,
    decreases rows.len(),
{
    if rows.len() > 0 {
        let front = rows.drop_last();
        assert(forall|i: int| 0 <= i < front.len() ==> front[i] == rows[i]);
        all_ok_rows_have_no_errors(front);
        assert(rows.last() == rows[rows.len() - 1]);
        assert(row_errors(rows) == row_errors(front));
    }
}

/// The message for an export whose rows could not all be read.
pub fn parse_failure_message(file_path: &str, errors: &Vec<String>) -> (r: String)
    ensures
        r@ == failure_message(file_path@, errors@),
{
    let mut message = String::from_str("For the file ");
    message.append(file_path);
    message.append(" the following CSV parsing errors occurred:");
    assert(errors@.take(0) =~= Seq::<String>::empty());
    assert(message@ =~= failure_message(file_path@, errors@.take(0)));
    let mut i: usize = 0;
    while i < errors.len()
        invariant
            i <= errors@.len(),
            message@ == failure_message(file_path@, errors@.take(i as int)),
        decreases errors@.len() - i,
    {
        proof {
            let next = errors@.take(i + 1);
            assert(next.drop_last() =~= errors@.take(i as int));
            assert(next.last() == errors@[i as int]);
        }
        message.append("\n");
        message.append(errors[i].as_str());
        assert(message@ =~= failure_message(file_path@, errors@.take(i + 1)));
        i += 1;
    }
    assert(errors@.take(i as int) =~= errors@);
    message
}

} // verus!
