//! What is reported after a run: the counts of the three kinds, and the
//! records that go into the log of each kind that went wrong.

use vstd::prelude::*;
use crate::article::Article;
use crate::classify::Classified;
use crate::outcome::ImportResult;

verus! {

/// The counts of a run.
#[derive(Clone, Copy, Debug, PartialEq, Eq, Structural)]
pub struct Summary {
    pub total: usize,
    pub success: usize,
    pub invalid: usize,
    pub error: usize,
}

/// A log that is to be written: the name of its file and the records that
/// it holds.
#[derive(Clone, Debug, PartialEq, Eq)]
pub struct LogFile {
    pub name: String,
    pub articles: Vec<Article>,
}

/// The logs of a run: one for the records with an invalid URL and one for
/// the records that failed, each only where there is such a record.
#[derive(Clone, Debug, PartialEq, Eq)]
pub struct LogPlan {
    /// The time of the report, which both file names carry.
    pub timestamp: String,
    pub invalid: Option<LogFile>,
    pub error: Option<LogFile>,
}

/// Whether one of the outcomes is for the given URL.
pub open spec fn has_url(results: Seq<ImportResult>, url: Seq<char>) -> bool {
    exists|k: int| 0 <= k < results.len() && (#[trigger] results[k]).url@ == url
}

/// The records whose URL is the URL of one of the outcomes, in the order of
/// the records.
pub open spec fn logged_articles(articles: Seq<Article>, results: Seq<ImportResult>) -> Seq<
    Article,
> {
    articles.filter(|a: Article| has_url(results, a.url@))
}

/// The name of the log of one kind, written at `timestamp`.
pub open spec fn log_name(log_type: Seq<char>, timestamp: Seq<char>) -> Seq<char> {
    log_type + "-articles-"@ + timestamp + ".csv"@
}

/// Whether `file` is the log of the outcomes `results`: none where there is
/// no outcome, and else the file of that name with the records of the
/// outcomes.
pub open spec fn is_log_of(
    file: Option<LogFile>,
    log_type: Seq<char>,
    timestamp: Seq<char>,
    articles: Seq<Article>,
    results: Seq<ImportResult>,
) -> bool {
    match file {
        None => results.len() == 0,
        Some(f) => {
            &&& results.len() > 0
            &&& f.name@ == log_name(log_type, timestamp)
            &&& f.articles@ == logged_articles(articles, results)
        },
    }
}

/// The time of the machine's clock in its local time zone, from
/// `chrono::Local::now`, written by `chrono::DateTime::format` as year,
/// month, day, hour, minute and second with hyphens between them. Nothing
/// is claimed of the text.
#[verifier::external_body]
fn local_timestamp() -> (r: String) {
    chrono::Local::now().format("%Y-%m-%d--%H-%M-%S").to_string()
}

/// The counts of a run: those of the three buckets, and their sum.
pub fn summarize(classified: &Classified) -> (r: Summary)
    requires
        classified.spec_total() <= usize::MAX,
    ensures
        r.success == classified.success@.len(),
        r.invalid == classified.invalid_url@.len(),
        r.error == classified.failed@.len(),
        r.total == r.success + r.invalid + r.error,
{
    let success = classified.success.len();
    let invalid = classified.invalid_url.len();
    let error = classified.failed.len();
    Summary { total: success + invalid + error, success, invalid, error }
}

/// Whether one of the outcomes is for the given URL.
pub fn contains_url(results: &Vec<ImportResult>, url: &String) -> (r: bool)
    ensures
        r == has_url(results@, url@),
{
    let mut k: usize = 0;
    while k < results.len()
        invariant
            k <= results@.len(),
            forall|j: int| 0 <= j < k ==> (#[trigger] results@[j]).url@ != url@,
        decreases results@.len() - k,
    {
        if results[k].url == *url {
            return true;
        }
        k += 1;
    }
    false
}

proof fn logged_articles_push(articles: Seq<Article>, next: Article, results: Seq<ImportResult>)
    ensures
        logged_articles(articles.push(next), results) == if has_url(results, next.url@) {
            logged_articles(articles, results).push(next)
        } else {
            logged_articles(articles, results)
        },
{
    reveal(Seq::filter);
    assert(articles.push(next).drop_last() =~= articles);
}

/// The records whose URL is the URL of one of the outcomes, in the order of
/// the records.
pub fn select_articles(articles: &Vec<Article>, results: &Vec<ImportResult>) -> (r: Vec<Article>)
    ensures
        r@ == logged_articles(articles@, results@),
{
    let mut selected: Vec<Article> = Vec::new();
    proof {
        reveal(Seq::filter);
        assert(articles@.take(0) =~= Seq::<Article>::empty());
    }
    let mut i: usize = 0;
    while i < articles.len()
        invariant
            i <= articles@.len(),
            selected@ == logged_articles(articles@.take(i as int), results@),
        decreases articles@.len() - i,
    {
        proof {
            assert(articles@.take(i + 1) =~= articles@.take(i as int).push(articles@[i as int]));
            logged_articles_push(articles@.take(i as int), articles@[i as int], results@);
        }
        if contains_url(results, &articles[i].url) {
            selected.push(articles[i].duplicate());
        }
        i += 1;
    }
    assert(articles@.take(i as int) =~= articles@);
    selected
}

/// The name of the log of one kind, written at `timestamp`.
pub fn log_file_name(log_type: &str, timestamp: &str) -> (r: String)
    ensures
        r@ == log_name(log_type@, timestamp@),
{
    let mut name = String::from_str(log_type);
    name.append("-articles-");
    name.append(timestamp);
    name.append(".csv");
    assert(name@ =~= log_name(log_type@, timestamp@));
    name
}

/// The log of one kind: none where there is no outcome of that kind.
pub fn plan_log(
    log_type: &str,
    timestamp: &str,
    articles: &Vec<Article>,
    results: &Vec<ImportResult>,
) -> (r: Option<LogFile>)
    ensures
        is_log_of(r, log_type@, timestamp@, articles@, results@),
{
    if results.len() == 0 {
        None
    } else {
        Some(
            LogFile {
                name: log_file_name(log_type, timestamp),
                articles: select_articles(articles, results),
            },
        )
    }
}

/// The logs of a run, with `timestamp` in their names.
pub fn plan_logs_at(
    timestamp: String,
    articles: &Vec<Article>,
    invalid_results: &Vec<ImportResult>,
    error_results: &Vec<ImportResult>,
) -> (r: LogPlan)
    ensures
        r.timestamp == timestamp,
        is_log_of(r.invalid, "invalid"@, timestamp@, articles@, invalid_results@),
        is_log_of(r.error, "error"@, timestamp@, articles@, error_results@),
{
    let invalid = plan_log("invalid", timestamp.as_str(), articles, invalid_results);
    let error = plan_log("error", timestamp.as_str(), articles, error_results);
    LogPlan { timestamp, invalid, error }
}

/// The logs of a run, with the time of the call in their names. Which time
/// that is cannot be said before the call; the plan holds it, and
/// everything else is fixed by the records and the outcomes.
pub fn plan_logs(
    articles: &Vec<Article>,
    invalid_results: &Vec<ImportResult>,
    error_results: &Vec<ImportResult>,
) -> (r: LogPlan)
    ensures
        is_log_of(r.invalid, "invalid"@, r.timestamp@, articles@, invalid_results@),
        is_log_of(r.error, "error"@, r.timestamp@, articles@, error_results@),
{
    plan_logs_at(local_timestamp(), articles, invalid_results, error_results)
}

} // verus!
