use vstd::prelude::*;

verus! {

/// The entries a directory walk yields, in walk order, with the entries
/// that could not be resolved skipped.
pub open spec fn kept_entries(raw: Seq<Option<String>>) -> Seq<Seq<char>>
    decreases raw.len(),
{
    if raw.len() == 0 {
        Seq::empty()
    } else {
        kept_entries(raw.drop_last()) + match raw.last() {
            Some(e) => seq![e@],
            None => Seq::empty(),
        }
    }
}

/// Keeps the resolvable entries of a directory walk, in order. An entry
/// that failed to resolve is skipped; it never aborts the listing.
pub fn collect_entries(raw: &Vec<Option<String>>) -> (out: Vec<String>)
    ensures
        out@.map_values(|e: String| e@) == kept_entries(raw@),
{
    let mut out: Vec<String> = Vec::new();
    let mut i: usize = 0;
    proof {
        assert(raw@.subrange(0, 0) =~= Seq::<Option<String>>::empty());
        assert(out@.map_values(|e: String| e@) =~= kept_entries(raw@.subrange(0, 0)));
    }
    while i < raw.len()
        invariant
            i <= raw@.len(),
            out@.map_values(|e: String| e@) == kept_entries(raw@.subrange(0, i as int)),
        decreases raw@.len() - i,
    {
        let ghost prev = out@;
        match &raw[i] {
            Some(s) => {
                out.push(s.clone());
            },
            None => {},
        }
        proof {
            let pre = raw@.subrange(0, i as int);
            let cur = raw@.subrange(0, i + 1);
            assert(cur.drop_last() =~= pre);
            assert(cur.last() == raw@[i as int]);
            assert(out@.map_values(|e: String| e@) =~= kept_entries(cur));
        }
        i = i + 1;
    }
    proof {
        assert(raw@.subrange(0, raw@.len() as int) =~= raw@);
    }
    out
}

/// One rendered listing entry: a link whose target and label are both the
/// entry's name below the listing's base path.
pub open spec fn entry_html(base: Seq<char>, e: Seq<char>) -> Seq<char> {
    "<li><a href="@ + base + "/"@ + e + ">"@ + e + "</a></li>"@
}

/// The rendered entries, separated by single line breaks.
pub open spec fn entries_html(base: Seq<char>, items: Seq<Seq<char>>) -> Seq<char>
    decreases items.len(),
{
    if items.len() == 0 {
        Seq::empty()
    } else if items.len() == 1 {
        entry_html(base, items[0])
    } else {
        entries_html(base, items.drop_last()) + "\n"@ + entry_html(base, items.last())
    }
}

/// The whole listing view: a heading and the entry list.
pub open spec fn listing_html(base: Seq<char>, items: Seq<Seq<char>>) -> Seq<char> {
    "<h1>Mails</h1><ul>"@ + entries_html(base, items) + "</ul>"@
}

/// Renders the listing view for the given entries. The result shows exactly
/// the given entries, in order, and nothing else.
pub fn render_listing(base: &str, entries: &Vec<String>) -> (html: String)
    ensures
        html@ == listing_html(base@, entries@.map_values(|e: String| e@)),
{
    let ghost items = entries@.map_values(|e: String| e@);
    let mut body = String::new();
    let mut i: usize = 0;
    proof {
        assert(entries@.subrange(0, 0).map_values(|e: String| e@) =~= Seq::<Seq<char>>::empty());
        assert(body@ =~= entries_html(base@, entries@.subrange(0, 0).map_values(|e: String| e@)));
    }
    while i < entries.len()
        invariant
            i <= entries@.len(),
            body@ == entries_html(base@, entries@.subrange(0, i as int).map_values(
                |e: String| e@,
            )),
        decreases entries@.len() - i,
    {
        if i > 0 {
            body.append("\n");
        }
        body.append("<li><a href=");
        body.append(base);
        body.append("/");
        body.append(entries[i].as_str());
        body.append(">");
        body.append(entries[i].as_str());
        body.append("</a></li>");
        proof {
            let pre = entries@.subrange(0, i as int).map_values(|e: String| e@);
            let cur = entries@.subrange(0, i + 1).map_values(|e: String| e@);
            assert(cur.drop_last() =~= pre);
            assert(cur.last() == entries@[i as int]@);
            if i == 0 {
                assert(cur.len() == 1);
                assert(body@ =~= entry_html(base@, cur[0]));
            } else {
                assert(body@ =~= entries_html(base@, pre) + "\n"@ + entry_html(base@, cur.last()));
            }
        }
        i = i + 1;
    }
    proof {
        assert(entries@.subrange(0, entries@.len() as int) =~= entries@);
    }
    let mut html = "<h1>Mails</h1><ul>".to_owned();
    html.append(body.as_str());
    html.append("</ul>");
    proof {
        assert(html@ =~= listing_html(base@, items));
    }
    html
}

} // verus!
