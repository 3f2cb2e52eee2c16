//! The `ansible-playbook` command line used to provision hosts.
use std::collections::BTreeMap;
use vstd::prelude::*;

use crate::text::{join, owned, push_str, views};

verus! {

/// Path of the `ansible-playbook` executable.
pub const CMD: &'static str = "/usr/bin/ansible-playbook";

/// Playbook that installs a host.
pub const INSTALL_HOST_PLAYBOOK: &'static str = "playbooks/roles/setup_host/playbook.yml";

/// Lexicographic order on character sequences (the order of `String`).
pub open spec fn lex_lt(a: Seq<char>, b: Seq<char>) -> bool
    decreases a.len(),
{
    if a.len() == 0 {
        b.len() > 0
    } else if b.len() == 0 {
        false
    } else if a[0] != b[0] {
        a[0] < b[0]
    } else {
        lex_lt(a.drop_first(), b.drop_first())
    }
}

/// `entries` lists the pairs of `m` by ascending key, each once.
pub open spec fn is_sorted_listing(entries: Seq<(String, String)>, m: Map<String, String>) -> bool {
    &&& forall|i: int, j: int| 0 <= i < j < entries.len() ==> lex_lt(entries[i].0@, entries[j].0@)
    &&& forall|i: int|
        0 <= i < entries.len() ==> m.contains_key(#[trigger] entries[i].0) && m[entries[i].0] == entries[i].1
    &&& forall|k: String| #[trigger] m.contains_key(k) ==> exists|i: int| 0 <= i < entries.len() && entries[i].0 == k
}

/// Calls `BTreeMap::iter` and copies the pairs out. The map yields its
/// pairs in ascending key order (String keys order lexicographically).
#[verifier::external_body]
fn sorted_entries(m: &BTreeMap<String, String>) -> (r: Vec<(String, String)>)
    ensures
        is_sorted_listing(r@, m@),
{
    m.iter().map(|(k, v)| (k.clone(), v.clone())).collect()
}

/// An `ansible-playbook` invocation against one host.
#[derive(Debug)]
pub struct AnsibleCommand<'a> {
    playbook: &'a str,
    user: &'a str,
    host: &'a str,
    /// Extra variables by ascending name.
    extra_params: Vec<(String, String)>,
}

/// `-e name=value`.
pub open spec fn extra_arg(kv: (String, String)) -> Seq<char> {
    "-e "@ + kv.0@ + "="@ + kv.1@
}

impl<'a> AnsibleCommand<'a> {
    pub closed spec fn spec_playbook(&self) -> Seq<char> {
        self.playbook@
    }

    pub closed spec fn spec_user(&self) -> Seq<char> {
        self.user@
    }

    pub closed spec fn spec_host(&self) -> Seq<char> {
        self.host@
    }

    /// The extra variables, by ascending name.
    pub closed spec fn params(&self) -> Seq<(String, String)> {
        self.extra_params@
    }

    pub fn new(playbook: &'a str, user: &'a str, host: &'a str, extra_params: BTreeMap<String, String>) -> (r:
        AnsibleCommand<'a>)
        ensures
            r.spec_playbook() == playbook@,
            r.spec_user() == user@,
            r.spec_host() == host@,
            is_sorted_listing(r.params(), extra_params@),
    {
        let params = sorted_entries(&extra_params);
        AnsibleCommand { playbook, user, host, extra_params: params }
    }

    /// The argument list: the playbook, `-i host,`, `-u user`, then one
    /// `-e name=value` per extra variable.
    pub open spec fn arg_list(&self) -> Seq<Seq<char>> {
        seq![self.spec_playbook(), "-i "@ + self.spec_host() + ","@, "-u "@ + self.spec_user()]
            + self.params().map_values(|kv: (String, String)| extra_arg(kv))
    }

    /// The arguments handed to `ansible-playbook`.
    pub fn build_args(&self) -> (r: Vec<String>)
        ensures
            views(r@) == self.arg_list(),
    {
        let mut args: Vec<String> = Vec::new();
        args.push(owned(self.playbook));
        let mut a = owned("-i ");
        push_str(&mut a, self.host);
        push_str(&mut a, ",");
        args.push(a);
        let mut b = owned("-u ");
        push_str(&mut b, self.user);
        args.push(b);
        let ghost head = seq![self.spec_playbook(), "-i "@ + self.spec_host() + ","@, "-u "@ + self.spec_user()];
        assert(views(args@) =~= head);
        let n = self.extra_params.len();
        for i in 0..n
            invariant
                n == self.extra_params@.len(),
                views(args@) == head + self.params().take(i as int).map_values(|kv: (String, String)| extra_arg(kv)),
        {
            let mut e = owned("-e ");
            push_str(&mut e, self.extra_params[i].0.as_str());
            push_str(&mut e, "=");
            push_str(&mut e, self.extra_params[i].1.as_str());
            let ghost before = args@;
            args.push(e);
            assert(args@ == before.push(e));
            assert(views(args@) =~= views(before).push(e@));
            assert(self.params().take(i + 1) =~= self.params().take(i as int).push(self.params()[i as int]));
            assert(views(args@) =~= head + self.params().take(i + 1).map_values(
                |kv: (String, String)| extra_arg(kv),
            ));
        }
        assert(self.params().take(n as int) =~= self.params());
        args
    }

    /// The command as printed: `playbook -i host, -u user` followed by
    /// ` -e name=value` per extra variable.
    pub open spec fn display_text(&self) -> Seq<char> {
        self.spec_playbook() + " -i "@ + self.spec_host() + ", -u "@ + self.spec_user() + extras_text(
            self.params(),
        )
    }

    /// What `Display` prints for the command.
    pub fn to_string(&self) -> (r: String)
        ensures
            r@ == self.display_text(),
    {
        let mut r = owned(self.playbook);
        push_str(&mut r, " -i ");
        push_str(&mut r, self.host);
        push_str(&mut r, ", -u ");
        push_str(&mut r, self.user);
        let ghost head = r@;
        let n = self.extra_params.len();
        for i in 0..n
            invariant
                n == self.extra_params@.len(),
                r@ == head + extras_text(self.params().take(i as int)),
        {
            push_str(&mut r, " -e ");
            push_str(&mut r, self.extra_params[i].0.as_str());
            push_str(&mut r, "=");
            push_str(&mut r, self.extra_params[i].1.as_str());
            proof {
                reveal_strlit(" -e ");
                reveal_strlit(" ");
                reveal_strlit("-e ");
                let p = self.params().take(i + 1);
                assert(p.drop_last() =~= self.params().take(i as int));
                assert(p.last() == self.extra_params@[i as int]);
                assert(" -e "@ =~= " "@ + "-e "@);
                assert(extras_text(p) == extras_text(p.drop_last()) + " "@ + extra_arg(p.last()));
            }
            assert(r@ =~= head + extras_text(self.params().take(i + 1)));
        }
        assert(self.params().take(n as int) =~= self.params());
        r
    }
}

/// ` -e name=value` for each pair.
pub open spec fn extras_text(params: Seq<(String, String)>) -> Seq<char>
    decreases params.len(),
{
    if params.len() == 0 {
        Seq::empty()
    } else {
        extras_text(params.drop_last()) + " "@ + extra_arg(params.last())
    }
}

proof fn lemma_join_extras(head: Seq<Seq<char>>, params: Seq<(String, String)>)
    requires
        head.len() >= 1,
    ensures
        join(head + params.map_values(|kv: (String, String)| extra_arg(kv)), " "@) == join(head, " "@)
            + extras_text(params),
    decreases params.len(),
{
    let f = |kv: (String, String)| extra_arg(kv);
    if params.len() == 0 {
        assert(head + params.map_values(f) =~= head);
        assert(join(head, " "@) + extras_text(params) =~= join(head, " "@));
    } else {
        let init = params.drop_last();
        lemma_join_extras(head, init);
        let all = head + params.map_values(f);
        assert(all.drop_last() =~= head + init.map_values(f));
        assert(all.last() == extra_arg(params.last()));
        assert(join(all, " "@) == join(all.drop_last(), " "@) + " "@ + all.last());
    }
}

/// The printed command is the argument list joined by single spaces.
pub proof fn lemma_display_is_joined_args(cmd: AnsibleCommand)
    ensures
        cmd.display_text() == join(cmd.arg_list(), " "@),
{
    let head = seq![cmd.spec_playbook(), "-i "@ + cmd.spec_host() + ","@, "-u "@ + cmd.spec_user()];
    lemma_join_extras(head, cmd.params());
    assert(head.drop_last() =~= seq![cmd.spec_playbook(), "-i "@ + cmd.spec_host() + ","@]);
    assert(head.drop_last().drop_last() =~= seq![cmd.spec_playbook()]);
    assert(join(head, " "@) =~= cmd.spec_playbook() + " -i "@ + cmd.spec_host() + ", -u "@ + cmd.spec_user()) by {
        let h1 = head.drop_last().drop_last();
        let h2 = head.drop_last();
        assert(join(h1, " "@) == cmd.spec_playbook());
        assert(join(h2, " "@) == join(h1, " "@) + " "@ + h2.last());
        assert(join(head, " "@) == join(h2, " "@) + " "@ + head.last());
        reveal_strlit(" ");
        reveal_strlit(" -i ");
        reveal_strlit(", -u ");
        reveal_strlit("-i ");
        reveal_strlit(",");
        reveal_strlit("-u ");
    }
}

} // verus!
