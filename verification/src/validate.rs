//! Admission rules for `Single` and `Cluster` resources.
use vstd::prelude::*;
use crate::error::{Error, ErrorView, and_then, outcome};
use crate::spec::{
    BinaryDataSpec, Cluster, CommunityNodesConfig, DatabaseSpec, EnvVar, Single, SmtpConfig,
};
use crate::text::{concat2, concat3, debug_quoted, debug_text, has_prefix, owned, starts_with, str_eq};

verus! {

// ----- extraEnv -----

/// Env names and prefixes the operator wires itself; `extraEnv` may not set them.
pub open spec fn is_reserved_env(n: Seq<char>) -> bool {
    ||| n == "N8N_ENCRYPTION_KEY"@
    ||| n == "EXECUTIONS_MODE"@
    ||| n == "N8N_CONCURRENCY_PRODUCTION_LIMIT"@
    ||| n == "QUEUE_HEALTH_CHECK_ACTIVE"@
    ||| n == "N8N_DISABLE_PRODUCTION_MAIN_PROCESS"@
    ||| n == "N8N_MULTI_MAIN_SETUP_ENABLED"@
    ||| has_prefix(n, "DB_"@)
    ||| has_prefix(n, "QUEUE_BULL_"@)
}

/// Whether `name` is operator-managed.
pub fn reserved_env(name: &str) -> (r: bool)
    ensures
        r == is_reserved_env(name@),
{
    str_eq(name, "N8N_ENCRYPTION_KEY") || str_eq(name, "EXECUTIONS_MODE") || str_eq(
        name,
        "N8N_CONCURRENCY_PRODUCTION_LIMIT",
    ) || str_eq(name, "QUEUE_HEALTH_CHECK_ACTIVE") || str_eq(name, "N8N_DISABLE_PRODUCTION_MAIN_PROCESS")
        || str_eq(name, "N8N_MULTI_MAIN_SETUP_ENABLED") || starts_with(name, "DB_") || starts_with(
        name,
        "QUEUE_BULL_",
    )
}

/// The verdict on one `extraEnv` entry.
pub open spec fn env_entry_check(e: EnvVar) -> Result<(), ErrorView> {
    if is_reserved_env(e.name@) {
        Err(
            ErrorView::IllegalEnv(
                "extraEnv may not set operator-managed variable "@ + debug_quoted(e.name@),
            ),
        )
    } else if (e.value is Some) == (e.value_from is Some) {
        Err(
            ErrorView::IllegalEnv(
                "extraEnv "@ + debug_quoted(e.name@) + " must set exactly one of value or valueFrom"@,
            ),
        )
    } else {
        Ok(())
    }
}

/// The verdict on the entries from index `i` on: the first failing entry decides.
pub open spec fn env_check_from(s: Seq<EnvVar>, i: int) -> Result<(), ErrorView>
    decreases s.len() - i,
{
    if i < 0 || i >= s.len() {
        Ok(())
    } else {
        and_then(env_entry_check(s[i]), env_check_from(s, i + 1))
    }
}

/// An `extraEnv` entry that the operator accepts: not operator-managed, and
/// exactly one of `value` / `value_from` set.
pub open spec fn env_entry_ok(e: EnvVar) -> bool {
    !is_reserved_env(e.name@) && (e.value is Some) != (e.value_from is Some)
}

proof fn lemma_env_check_ok(s: Seq<EnvVar>, i: int)
    requires
        0 <= i,
    ensures
        (env_check_from(s, i) is Ok) <==> (forall|j: int| i <= j < s.len() ==> env_entry_ok(#[trigger] s[j])),
    decreases s.len() - i,
{
    if i < s.len() {
        lemma_env_check_ok(s, i + 1);
    }
}

/// Rejects `extraEnv` entries that shadow operator-managed variables or set
/// both or neither of `value` and `value_from`; the first offending entry is reported.
pub fn validate_extra_env(env: &[EnvVar]) -> (r: Result<(), Error>)
    ensures
        outcome(r) == env_check_from(env@, 0),
        r is Ok <==> forall|j: int| 0 <= j < env@.len() ==> env_entry_ok(#[trigger] env@[j]),
{
    proof {
        lemma_env_check_ok(env@, 0);
    }
    let n = env.len();
    let mut i: usize = 0;
    while i < n
        invariant
            n == env@.len(),
            i <= n,
            env_check_from(env@, 0) == env_check_from(env@, i as int),
        decreases n - i,
    {
        let e = &env[i];
        if reserved_env(e.name.as_str()) {
            let q = debug_text(e.name.as_str());
            return Err(
                Error::IllegalEnv(
                    concat2("extraEnv may not set operator-managed variable ", q.as_str()),
                ),
            );
        }
        if e.value.is_some() == e.value_from.is_some() {
            let q = debug_text(e.name.as_str());
            return Err(
                Error::IllegalEnv(
                    concat3("extraEnv ", q.as_str(), " must set exactly one of value or valueFrom"),
                ),
            );
        }
        i = i + 1;
    }
    Ok(())
}

// ----- smtp -----

/// The verdict on an SMTP block: port 0 is refused.
pub open spec fn smtp_check(smtp: Option<SmtpConfig>) -> Result<(), ErrorView> {
    match smtp {
        Some(s) => if s.port == 0 {
            Err(ErrorView::IllegalSmtp("smtp.port must be 1-65535"@))
        } else {
            Ok(())
        },
        None => Ok(()),
    }
}

/// Refuses an SMTP block with port 0.
pub fn validate_smtp(smtp: Option<&SmtpConfig>) -> (r: Result<(), Error>)
    ensures
        outcome(r) == smtp_check(
            match smtp {
                Some(s) => Some(*s),
                None => None,
            },
        ),
{
    if let Some(s) = smtp {
        if s.port == 0 {
            return Err(Error::IllegalSmtp(owned("smtp.port must be 1-65535")));
        }
    }
    Ok(())
}

// ----- community nodes -----

/// How many of the three community-node strategies are switched on.
pub open spec fn community_strategies(cn: CommunityNodesConfig) -> int {
    (if cn.packages@.len() > 0 { 1int } else { 0int }) + (if cn.shared_storage is Some {
        1int
    } else {
        0int
    }) + (if cn.reinstall_missing == Some(true) {
        1int
    } else {
        0int
    })
}

/// The verdict on a community-node block: at most one strategy.
pub open spec fn community_check(cn: Option<CommunityNodesConfig>) -> Result<(), ErrorView> {
    match cn {
        Some(c) => if community_strategies(c) > 1 {
            Err(
                ErrorView::IllegalCluster(
                    "communityNodes: set at most one of packages, sharedStorage, reinstallMissing=true"@,
                ),
            )
        } else {
            Ok(())
        },
        None => Ok(()),
    }
}

/// Refuses a community-node block that switches on more than one strategy.
pub fn validate_community(cn: Option<&CommunityNodesConfig>) -> (r: Result<(), Error>)
    ensures
        outcome(r) == community_check(
            match cn {
                Some(c) => Some(*c),
                None => None,
            },
        ),
{
    if let Some(cn) = cn {
        let mut active: u32 = 0;
        if cn.packages.len() > 0 {
            active = active + 1;
        }
        if cn.shared_storage.is_some() {
            active = active + 1;
        }
        let reinstall = match cn.reinstall_missing {
            Some(b) => b,
            None => false,
        };
        if reinstall {
            active = active + 1;
        }
        if active > 1 {
            return Err(
                Error::IllegalCluster(
                    owned(
                        "communityNodes: set at most one of packages, sharedStorage, reinstallMissing=true",
                    ),
                ),
            );
        }
    }
    Ok(())
}

// ----- database -----

/// `parts` joined with `sep` between neighbours.
pub open spec fn seq_join(parts: Seq<Seq<char>>, sep: Seq<char>) -> Seq<char>
    decreases parts.len(),
{
    if parts.len() == 0 {
        Seq::empty()
    } else if parts.len() == 1 {
        parts[0]
    } else {
        seq_join(parts.drop_last(), sep) + sep + parts.last()
    }
}

/// `parts.join(sep)`.
pub fn join_strs(parts: &Vec<&str>, sep: &str) -> (r: String)
    ensures
        r@ == seq_join(parts@.map_values(|p: &str| p@), sep@),
{
    let ghost views = parts@.map_values(|p: &str| p@);
    let mut out = String::new();
    let n = parts.len();
    let mut i: usize = 0;
    while i < n
        invariant
            n == parts@.len(),
            i <= n,
            views == parts@.map_values(|p: &str| p@),
            out@ == seq_join(views.subrange(0, i as int), sep@),
        decreases n - i,
    {
        if i == 0 {
            out = owned(parts[i]);
            assert(views.subrange(0, 1) =~= seq![views[0]]);
        } else {
            let ghost before = out@;
            out = out.concat(sep);
            out = out.concat(parts[i]);
            assert(views.subrange(0, i + 1).drop_last() =~= views.subrange(0, i as int));
        }
        i = i + 1;
    }
    assert(views.subrange(0, n as int) =~= views);
    out
}

/// The backend blocks that are set but do not belong to type `ty`, in the order
/// `.sqlite`, `.postgres`, `.mysql`.
pub open spec fn db_extras(db: DatabaseSpec, ty: Seq<char>) -> Seq<Seq<char>> {
    let a = if ty != "sqlite"@ && db.sqlite is Some {
        seq![".sqlite"@]
    } else {
        Seq::empty()
    };
    let b = if ty != "postgresdb"@ && db.postgres is Some {
        seq![".postgres"@]
    } else {
        Seq::empty()
    };
    let c = if !(ty == "mysqldb"@ || ty == "mariadb"@) && db.mysql is Some {
        seq![".mysql"@]
    } else {
        Seq::empty()
    };
    a + b + c
}

/// The verdict on a database block.
pub open spec fn database_check(db: DatabaseSpec) -> Result<(), ErrorView> {
    let t = db.type_@;
    if t == "sqlite"@ {
        let ex = db_extras(db, t);
        if ex.len() > 0 {
            Err(ErrorView::IllegalDatabase("type=sqlite but "@ + seq_join(ex, ", "@) + " also set"@))
        } else {
            Ok(())
        }
    } else if t == "postgresdb"@ {
        if db.postgres is None {
            Err(ErrorView::IllegalDatabase("type=postgresdb requires .database.postgres"@))
        } else {
            let ex = db_extras(db, t);
            if ex.len() > 0 {
                Err(
                    ErrorView::IllegalDatabase(
                        "type=postgresdb but "@ + seq_join(ex, ", "@) + " also set"@,
                    ),
                )
            } else {
                Ok(())
            }
        }
    } else if t == "mysqldb"@ || t == "mariadb"@ {
        if db.mysql is None {
            Err(ErrorView::IllegalDatabase("type="@ + t + " requires .database.mysql"@))
        } else {
            let ex = db_extras(db, t);
            if ex.len() > 0 {
                Err(
                    ErrorView::IllegalDatabase(
                        "type="@ + t + " but "@ + seq_join(ex, ", "@) + " also set"@,
                    ),
                )
            } else {
                Ok(())
            }
        }
    } else {
        Err(ErrorView::IllegalDatabase("unknown type "@ + debug_quoted(t)))
    }
}

/// A database block the operator accepts: a known type, the block of that type
/// present when it needs one, and no block of another type.
pub open spec fn database_valid(db: DatabaseSpec) -> bool {
    let t = db.type_@;
    ||| (t == "sqlite"@ && db.postgres is None && db.mysql is None)
    ||| (t == "postgresdb"@ && db.postgres is Some && db.sqlite is None && db.mysql is None)
    ||| ((t == "mysqldb"@ || t == "mariadb"@) && db.mysql is Some && db.sqlite is None
        && db.postgres is None)
}

proof fn lemma_database_check_ok(db: DatabaseSpec)
    ensures
        (database_check(db) is Ok) <==> database_valid(db),
{
    reveal_strlit("sqlite");
    reveal_strlit("postgresdb");
    reveal_strlit("mysqldb");
    reveal_strlit("mariadb");
    assert("sqlite"@.len() == 6);
    assert("postgresdb"@.len() == 10);
    assert("mysqldb"@.len() == 7);
    assert("mariadb"@.len() == 7);
    assert("mysqldb"@[1] != "mariadb"@[1]);
    assert("sqlite"@ != "postgresdb"@);
    assert("sqlite"@ != "mysqldb"@);
    assert("sqlite"@ != "mariadb"@);
    assert("postgresdb"@ != "mysqldb"@);
    assert("postgresdb"@ != "mariadb"@);
    let t = db.type_@;
    let ex = db_extras(db, t);
    if t == "sqlite"@ {
        assert(ex.len() == 0 <==> (db.postgres is None && db.mysql is None));
    } else if t == "postgresdb"@ {
        assert(ex.len() == 0 <==> (db.sqlite is None && db.mysql is None));
    } else if t == "mysqldb"@ || t == "mariadb"@ {
        assert(ex.len() == 0 <==> (db.sqlite is None && db.postgres is None));
    }
}

fn extras_for_type(db: &DatabaseSpec, ty: &str) -> (r: Vec<&'static str>)
    ensures
        r@.map_values(|p: &str| p@) == db_extras(*db, ty@),
{
    let mut v: Vec<&'static str> = Vec::new();
    if !str_eq(ty, "sqlite") && db.sqlite.is_some() {
        v.push(".sqlite");
    }
    if !str_eq(ty, "postgresdb") && db.postgres.is_some() {
        v.push(".postgres");
    }
    if !(str_eq(ty, "mysqldb") || str_eq(ty, "mariadb")) && db.mysql.is_some() {
        v.push(".mysql");
    }
    assert(v@.map_values(|p: &str| p@) =~= db_extras(*db, ty@));
    v
}

/// Checks that the database type is known, that its block is present where
/// one is needed, and that no block of another type is set.
pub fn validate_database(db: &DatabaseSpec) -> (r: Result<(), Error>)
    ensures
        outcome(r) == database_check(*db),
        r is Ok <==> database_valid(*db),
{
    proof {
        lemma_database_check_ok(*db);
    }
    let t = db.type_.as_str();
    if str_eq(t, "sqlite") {
        let extras = extras_for_type(db, t);
        if extras.len() > 0 {
            let j = join_strs(&extras, ", ");
            return Err(Error::IllegalDatabase(concat3("type=sqlite but ", j.as_str(), " also set")));
        }
    } else if str_eq(t, "postgresdb") {
        if db.postgres.is_none() {
            return Err(Error::IllegalDatabase(owned("type=postgresdb requires .database.postgres")));
        }
        let extras = extras_for_type(db, t);
        if extras.len() > 0 {
            let j = join_strs(&extras, ", ");
            return Err(
                Error::IllegalDatabase(concat3("type=postgresdb but ", j.as_str(), " also set")),
            );
        }
    } else if str_eq(t, "mysqldb") || str_eq(t, "mariadb") {
        if db.mysql.is_none() {
            return Err(Error::IllegalDatabase(concat3("type=", t, " requires .database.mysql")));
        }
        let extras = extras_for_type(db, t);
        if extras.len() > 0 {
            let j = join_strs(&extras, ", ");
            let head = concat3("type=", t, " but ");
            return Err(Error::IllegalDatabase(concat3(head.as_str(), j.as_str(), " also set")));
        }
    } else {
        let q = debug_text(t);
        return Err(Error::IllegalDatabase(concat2("unknown type ", q.as_str())));
    }
    Ok(())
}

// ----- binary data -----

/// The verdict on a binary-data block.
pub open spec fn binary_data_check(bd: Option<BinaryDataSpec>) -> Result<(), ErrorView> {
    match bd {
        Some(b) => {
            let m = b.mode@;
            if !(m == "default"@ || m == "database"@ || m == "filesystem"@ || m == "s3"@) {
                Err(
                    ErrorView::IllegalCluster(
                        "unknown binaryData.mode "@ + debug_quoted(m)
                            + " (want default, database, filesystem or s3)"@,
                    ),
                )
            } else if m == "s3"@ && b.s3 is None {
                Err(ErrorView::IllegalCluster("binaryData.mode=s3 requires .binaryData.s3"@))
            } else if b.shared_storage is Some && m != "filesystem"@ {
                Err(
                    ErrorView::IllegalCluster(
                        "binaryData.sharedStorage is only valid with mode=filesystem"@,
                    ),
                )
            } else {
                Ok(())
            }
        },
        None => Ok(()),
    }
}

/// Checks the binary-data mode, that `s3` comes with its block, and that a
/// shared volume is only used with `filesystem`.
pub fn validate_binary_data(bd: Option<&BinaryDataSpec>) -> (r: Result<(), Error>)
    ensures
        outcome(r) == binary_data_check(
            match bd {
                Some(b) => Some(*b),
                None => None,
            },
        ),
{
    if let Some(bd) = bd {
        let m = bd.mode.as_str();
        if !(str_eq(m, "default") || str_eq(m, "database") || str_eq(m, "filesystem") || str_eq(
            m,
            "s3",
        )) {
            let q = debug_text(m);
            return Err(
                Error::IllegalCluster(
                    concat3("unknown binaryData.mode ", q.as_str(), " (want default, database, filesystem or s3)"),
                ),
            );
        }
        if str_eq(m, "s3") && bd.s3.is_none() {
            return Err(Error::IllegalCluster(owned("binaryData.mode=s3 requires .binaryData.s3")));
        }
        if bd.shared_storage.is_some() && !str_eq(m, "filesystem") {
            return Err(
                Error::IllegalCluster(owned("binaryData.sharedStorage is only valid with mode=filesystem")),
            );
        }
    }
    Ok(())
}

// ----- whole resources -----

/// The verdict on a `Cluster`, check by check.
pub open spec fn cluster_check(c: Cluster) -> Result<(), ErrorView> {
    let s = c.spec;
    and_then(
        database_check(s.database),
        and_then(
            if s.database.type_@ == "sqlite"@ {
                Err(
                    ErrorView::IllegalCluster(
                        "queue mode requires a shared DB; sqlite is not supported"@,
                    ),
                )
            } else {
                Ok(())
            },
            and_then(
                env_check_from(s.extra_env@, 0),
                and_then(
                    env_check_from(s.main.extra_env@, 0),
                    and_then(
                        env_check_from(s.workers.extra_env@, 0),
                        and_then(
                            match s.webhooks {
                                Some(w) => env_check_from(w.extra_env@, 0),
                                None => Ok(()),
                            },
                            and_then(
                                smtp_check(s.smtp),
                                and_then(
                                    community_check(s.community_nodes),
                                    binary_data_check(s.binary_data),
                                ),
                            ),
                        ),
                    ),
                ),
            ),
        ),
    )
}

/// Validates a `Cluster`: its database (sqlite refused in queue mode), every
/// `extraEnv` list, SMTP, community nodes and binary data.
pub fn validate_cluster(c: &Cluster) -> (r: Result<(), Error>)
    ensures
        outcome(r) == cluster_check(*c),
{
    validate_database(&c.spec.database)?;
    if str_eq(c.spec.database.type_.as_str(), "sqlite") {
        return Err(Error::IllegalCluster(owned("queue mode requires a shared DB; sqlite is not supported")));
    }
    validate_extra_env(c.spec.extra_env.as_slice())?;
    validate_extra_env(c.spec.main.extra_env.as_slice())?;
    validate_extra_env(c.spec.workers.extra_env.as_slice())?;
    if let Some(wh) = &c.spec.webhooks {
        validate_extra_env(wh.extra_env.as_slice())?;
    }
    validate_smtp(c.spec.smtp.as_ref())?;
    validate_community(c.spec.community_nodes.as_ref())?;
    validate_binary_data(c.spec.binary_data.as_ref())?;
    Ok(())
}

/// What an accepted `Cluster` guarantees: a well-formed shared database (never
/// sqlite); no `extraEnv` list, cluster-wide or per role, that sets an
/// operator-managed variable or an entry without exactly one source; an SMTP
/// port other than 0; at most one community-node strategy; and a binary-data
/// block with a known mode, its `s3` block for `s3`, and a shared volume only
/// for `filesystem`.
pub proof fn accepted_cluster_is_consistent(c: Cluster)
    requires
        cluster_check(c) is Ok,
    ensures
        database_valid(c.spec.database),
        c.spec.database.type_@ != "sqlite"@,
        forall|j: int| 0 <= j < c.spec.extra_env@.len() ==> env_entry_ok(#[trigger] c.spec.extra_env@[j]),
        forall|j: int|
            0 <= j < c.spec.main.extra_env@.len() ==> env_entry_ok(#[trigger] c.spec.main.extra_env@[j]),
        forall|j: int|
            0 <= j < c.spec.workers.extra_env@.len() ==> env_entry_ok(
                #[trigger] c.spec.workers.extra_env@[j],
            ),
        c.spec.webhooks matches Some(w) ==> forall|j: int|
            0 <= j < w.extra_env@.len() ==> env_entry_ok(#[trigger] w.extra_env@[j]),
        c.spec.smtp matches Some(m) ==> m.port != 0,
        c.spec.community_nodes matches Some(cn) ==> community_strategies(cn) <= 1,
        c.spec.binary_data matches Some(b) ==> {
            &&& (b.mode@ == "default"@ || b.mode@ == "database"@ || b.mode@ == "filesystem"@ || b.mode@
                == "s3"@)
            &&& b.mode@ == "s3"@ ==> b.s3 is Some
            &&& b.shared_storage is Some ==> b.mode@ == "filesystem"@
        },
{
    let s = c.spec;
    lemma_database_check_ok(s.database);
    lemma_env_check_ok(s.extra_env@, 0);
    lemma_env_check_ok(s.main.extra_env@, 0);
    lemma_env_check_ok(s.workers.extra_env@, 0);
    if let Some(w) = s.webhooks {
        lemma_env_check_ok(w.extra_env@, 0);
    }
}

/// The verdict on a `Single`, check by check.
pub open spec fn single_check(s: Single) -> Result<(), ErrorView> {
    if s.metadata.name matches Some(n) && n@ == "illegal"@ {
        Err(ErrorView::IllegalSingle)
    } else if s.spec.networking matches Some(net) && net.ingress is Some && net.http_route is Some {
        Err(ErrorView::ConflictingNetworking)
    } else if s.spec.networking is Some && s.spec.host is None {
        Err(ErrorView::IllegalSingle)
    } else {
        and_then(
            match s.spec.database {
                Some(db) => database_check(db),
                None => Ok(()),
            },
            and_then(env_check_from(s.spec.extra_env@, 0), smtp_check(s.spec.smtp)),
        )
    }
}

/// Validates a `Single`: the reserved name `illegal`, conflicting networking,
/// networking without a host, its database, its `extraEnv` and SMTP.
pub fn validate_single(s: &Single) -> (r: Result<(), Error>)
    ensures
        outcome(r) == single_check(*s),
{
    if let Some(n) = &s.metadata.name {
        if str_eq(n.as_str(), "illegal") {
            return Err(Error::IllegalSingle);
        }
    }
    if let Some(net) = &s.spec.networking {
        if net.ingress.is_some() && net.http_route.is_some() {
            return Err(Error::ConflictingNetworking);
        }
        if s.spec.host.is_none() {
            return Err(Error::IllegalSingle);
        }
    }
    if let Some(db) = &s.spec.database {
        validate_database(db)?;
    }
    validate_extra_env(s.spec.extra_env.as_slice())?;
    validate_smtp(s.spec.smtp.as_ref())?;
    Ok(())
}

/// What an accepted `Single` guarantees: it is not named `illegal`, it is not
/// exposed through both an Ingress and an HTTPRoute, it has a host whenever it
/// is exposed at all, its database block (if any) is well-formed, its
/// `extraEnv` sets no operator-managed variable and gives every entry exactly
/// one source, and its SMTP port is not 0.
pub proof fn accepted_single_is_consistent(s: Single)
    requires
        single_check(s) is Ok,
    ensures
        !(s.metadata.name matches Some(n) && n@ == "illegal"@),
        !(s.spec.networking matches Some(net) && net.ingress is Some && net.http_route is Some),
        s.spec.networking is Some ==> s.spec.host is Some,
        s.spec.database matches Some(db) ==> database_valid(db),
        forall|j: int| 0 <= j < s.spec.extra_env@.len() ==> env_entry_ok(#[trigger] s.spec.extra_env@[j]),
        s.spec.smtp matches Some(m) ==> m.port != 0,
{
    if let Some(db) = s.spec.database {
        lemma_database_check_ok(db);
    }
    lemma_env_check_ok(s.spec.extra_env@, 0);
}

/// An SMTP block is refused exactly when its port is 0.
pub proof fn smtp_refused_only_for_port_zero(m: SmtpConfig)
    ensures
        smtp_check(Some(m)) is Err <==> m.port == 0,
        smtp_check(None) is Ok,
{
}

/// A community-node block is refused exactly when two or more of declarative
/// packages, a shared volume and reinstall-on-start are switched on.
pub proof fn community_refused_only_for_two_strategies(cn: CommunityNodesConfig)
    ensures
        community_check(Some(cn)) is Err <==> (
            (cn.packages@.len() > 0 && cn.shared_storage is Some)
            || (cn.packages@.len() > 0 && cn.reinstall_missing == Some(true))
            || (cn.shared_storage is Some && cn.reinstall_missing == Some(true))
        ),
        community_check(None) is Ok,
{
}

/// A binary-data block is accepted exactly when its mode is one of `default`,
/// `database`, `filesystem` and `s3`, an `s3` mode comes with its bucket
/// settings, and a shared volume is only used with `filesystem`.
pub proof fn binary_data_accepted_when_consistent(b: BinaryDataSpec)
    ensures
        binary_data_check(Some(b)) is Ok <==> {
            &&& (b.mode@ == "default"@ || b.mode@ == "database"@ || b.mode@ == "filesystem"@ || b.mode@
                == "s3"@)
            &&& (b.mode@ == "s3"@ ==> b.s3 is Some)
            &&& (b.shared_storage is Some ==> b.mode@ == "filesystem"@)
        },
        binary_data_check(None) is Ok,
{
}

/// An `extraEnv` entry is accepted exactly when it names no operator-managed
/// variable (`N8N_ENCRYPTION_KEY`, `EXECUTIONS_MODE`, the concurrency, health
/// check, production-webhook and multi-main switches, or any `DB_` or
/// `QUEUE_BULL_` name) and sets exactly one of `value` and `valueFrom`.
pub proof fn extra_env_entry_rule(e: EnvVar)
    ensures
        env_entry_check(e) is Ok <==> {
            &&& e.name@ != "N8N_ENCRYPTION_KEY"@
            &&& e.name@ != "EXECUTIONS_MODE"@
            &&& e.name@ != "N8N_CONCURRENCY_PRODUCTION_LIMIT"@
            &&& e.name@ != "QUEUE_HEALTH_CHECK_ACTIVE"@
            &&& e.name@ != "N8N_DISABLE_PRODUCTION_MAIN_PROCESS"@
            &&& e.name@ != "N8N_MULTI_MAIN_SETUP_ENABLED"@
            &&& !(e.name@.len() >= 3 && e.name@.subrange(0, 3) == "DB_"@)
            &&& !(e.name@.len() >= 11 && e.name@.subrange(0, 11) == "QUEUE_BULL_"@)
            &&& (e.value is Some) != (e.value_from is Some)
        },
{
    reveal_strlit("DB_");
    reveal_strlit("QUEUE_BULL_");
}

/// A `Single` is refused for the reserved name `illegal`, for an Ingress
/// together with an HTTPRoute, and for networking without a host.
pub proof fn single_refusals(s: Single)
    ensures
        (s.metadata.name matches Some(n) && n@ == "illegal"@) ==> single_check(s) == Err::<(), ErrorView>(
            ErrorView::IllegalSingle,
        ),
        (!(s.metadata.name matches Some(n) && n@ == "illegal"@) && (s.spec.networking matches Some(net)
            && net.ingress is Some && net.http_route is Some)) ==> single_check(s) == Err::<(), ErrorView>(
            ErrorView::ConflictingNetworking,
        ),
        (s.spec.networking is Some && s.spec.host is None) ==> single_check(s) is Err,
{
}

/// A `Cluster` on sqlite is refused; a cluster is refused whenever any of its
/// `extraEnv` lists, its SMTP, community-node or binary-data block is.
pub proof fn cluster_refusals(c: Cluster)
    ensures
        c.spec.database.type_@ == "sqlite"@ ==> cluster_check(c) is Err,
        env_check_from(c.spec.extra_env@, 0) is Err ==> cluster_check(c) is Err,
        env_check_from(c.spec.main.extra_env@, 0) is Err ==> cluster_check(c) is Err,
        env_check_from(c.spec.workers.extra_env@, 0) is Err ==> cluster_check(c) is Err,
        smtp_check(c.spec.smtp) is Err ==> cluster_check(c) is Err,
        community_check(c.spec.community_nodes) is Err ==> cluster_check(c) is Err,
        binary_data_check(c.spec.binary_data) is Err ==> cluster_check(c) is Err,
{
}

/// A database block is accepted exactly when it is consistent: a known type,
/// the block of that type present when it needs one, and no block of another
/// type. A missing backend block is refused by name, and so is a single stray
/// block next to a `sqlite` type.
pub proof fn database_refusals(db: DatabaseSpec)
    ensures
        (database_check(db) is Ok) <==> database_valid(db),
        (db.type_@ == "postgresdb"@ && db.postgres is None) ==> database_check(db) == Err::<(), ErrorView>(
            ErrorView::IllegalDatabase("type=postgresdb requires .database.postgres"@),
        ),
        ((db.type_@ == "mysqldb"@ || db.type_@ == "mariadb"@) && db.mysql is None) ==> database_check(db)
            == Err::<(), ErrorView>(ErrorView::IllegalDatabase("type="@ + db.type_@ + " requires .database.mysql"@)),
        (db.type_@ == "sqlite"@ && db.postgres is Some && db.mysql is None) ==> database_check(db) == Err::<
            (),
            ErrorView,
        >(ErrorView::IllegalDatabase("type=sqlite but .postgres also set"@)),
        (db.type_@ == "sqlite"@ && db.postgres is None && db.mysql is Some) ==> database_check(db) == Err::<
            (),
            ErrorView,
        >(ErrorView::IllegalDatabase("type=sqlite but .mysql also set"@)),
{
    lemma_database_check_ok(db);
    reveal_strlit("sqlite");
    reveal_strlit("postgresdb");
    reveal_strlit("mysqldb");
    reveal_strlit("mariadb");
    assert("sqlite"@.len() == 6);
    assert("postgresdb"@.len() == 10);
    assert("mysqldb"@.len() == 7);
    assert("mariadb"@.len() == 7);
    assert("sqlite"@ != "postgresdb"@);
    assert("sqlite"@ != "mysqldb"@);
    assert("sqlite"@ != "mariadb"@);
    assert("postgresdb"@ != "mysqldb"@);
    assert("postgresdb"@ != "mariadb"@);
    let t = db.type_@;
    if t == "sqlite"@ && db.postgres is Some && db.mysql is None {
        let ex = db_extras(db, t);
        assert(ex =~= seq![".postgres"@]);
        reveal_strlit("type=sqlite but ");
        reveal_strlit(".postgres");
        reveal_strlit(" also set");
        reveal_strlit("type=sqlite but .postgres also set");
        assert("type=sqlite but "@ + seq_join(ex, ", "@) + " also set"@ =~= "type=sqlite but .postgres also set"@);
    }
    if t == "sqlite"@ && db.postgres is None && db.mysql is Some {
        let ex = db_extras(db, t);
        assert(ex =~= seq![".mysql"@]);
        reveal_strlit("type=sqlite but ");
        reveal_strlit(".mysql");
        reveal_strlit(" also set");
        reveal_strlit("type=sqlite but .mysql also set");
        assert("type=sqlite but "@ + seq_join(ex, ", "@) + " also set"@ =~= "type=sqlite but .mysql also set"@);
    }
}

} // verus!
