//! Service worker composer: appends one event-listener registration per
//! configured listener to the generated glue script, in configuration
//! order, by plain placeholder substitution.

use vstd::prelude::*;

verus! {

/// The line registering one event listener: the listener template with
/// the event name and the handler body substituted in verbatim.
pub open spec fn registration(event_name: Seq<char>, handler: Seq<char>) -> Seq<char> {
    "self.addEventListener('"@ + event_name + "', event => "@ + handler + ");\n"@
}

/// The glue script followed by one registration per configured listener,
/// in configuration order, never reordered or deduplicated.
pub open spec fn composed_script(js: Seq<char>, listeners: Seq<(Seq<char>, Seq<char>)>) -> Seq<
    char,
>
    decreases listeners.len(),
{
    if listeners.len() == 0 {
        js
    } else {
        composed_script(js, listeners.drop_last()) + registration(
            listeners.last().0,
            listeners.last().1,
        )
    }
}

/// The configured listeners as pairs of character sequences.
pub open spec fn listeners_view(listeners: Seq<(String, String)>) -> Seq<(Seq<char>, Seq<char>)> {
    listeners.map_values(|l: (String, String)| (l.0@, l.1@))
}

/// Appends the registrations for the configured listeners to the glue
/// script text, strictly in configuration order; the handler bodies are
/// caller-trusted script source and are inserted without escaping.
pub fn compose_sw(js: &str, listeners: &Vec<(String, String)>) -> (r: String)
    ensures
        r@ == composed_script(js@, listeners_view(listeners@)),
{
    let ghost lv = listeners_view(listeners@);
    let mut out = js.to_owned();
    let n = listeners.len();
    let mut i: usize = 0;
    while i < n
        invariant
            n == listeners@.len(),
            lv == listeners_view(listeners@),
            i <= n,
            out@ == composed_script(js@, lv.take(i as int)),
        decreases n - i,
    {
        out.append("self.addEventListener('");
        out.append(listeners[i].0.as_str());
        out.append("', event => ");
        out.append(listeners[i].1.as_str());
        out.append(");\n");
        proof {
            assert(lv.take(i as int + 1).drop_last() =~= lv.take(i as int));
            assert(lv.take(i as int + 1).last() == lv[i as int]);
            assert(out@ =~= composed_script(js@, lv.take(i as int)) + registration(
                lv[i as int].0,
                lv[i as int].1,
            ));
        }
        i = i + 1;
    }
    proof {
        assert(lv.take(n as int) =~= lv);
    }
    out
}

/// The composed script is deterministic: two compositions from equal glue
/// scripts and equal listener configurations are character-identical.
pub proof fn lemma_composition_deterministic(
    js1: Seq<char>,
    js2: Seq<char>,
    l1: Seq<(Seq<char>, Seq<char>)>,
    l2: Seq<(Seq<char>, Seq<char>)>,
)
    requires
        js1 == js2,
        l1 == l2,
    ensures
        composed_script(js1, l1) == composed_script(js2, l2),
{
}

} // verus!
