//! When the ingest listener is to be bound, and what it takes to get there.
use crate::rtmp_listener::RtmpListener;
use crate::settings::{EachYellowPagesSettings, Settings};
use crate::yp_config::{config_of, find_config, has_config, YPConfig};
use vstd::prelude::*;

verus! {

/// One thing to do to the ingest listener.
#[derive(Clone, Copy, Debug, PartialEq, Eq, Structural)]
pub enum ListenerAction {
    /// Abort the task that accepts publishers, and unbind.
    Stop,
    /// Bind to this port and accept publishers.
    Spawn(u16),
}

/// Whether the terms of the directory of `stack` stand in nobody's way: the
/// stack has no directory host, or nothing is known of its directory, or
/// that directory's terms need no agreement, or a hash is stored for the
/// address of its terms.
pub open spec fn terms_settled(
    yp_configs: Seq<YPConfig>,
    settings: Settings,
    stack: EachYellowPagesSettings,
) -> bool {
    stack.configured() && has_config(yp_configs, stack.host@) ==> {
        let config = config_of(yp_configs, stack.host@);
        config.ignore_terms_check || settings.yellow_pages_settings.has_agreed(config.terms_url@)
    }
}

/// Whether publishers are to be awaited: at least one stack has a directory
/// host, and the terms of every such stack's directory are settled.
pub open spec fn should_listen(yp_configs: Seq<YPConfig>, settings: Settings) -> bool {
    &&& settings.yellow_pages_settings.ipv4.configured()
        || settings.yellow_pages_settings.ipv6.configured()
    &&& terms_settled(yp_configs, settings, settings.yellow_pages_settings.ipv4)
    &&& terms_settled(yp_configs, settings, settings.yellow_pages_settings.ipv6)
}

/// What is to be done to a listener in the state `bound` so that it is
/// bound to `port` exactly if `wanted`: nothing where that holds already;
/// else a stop where it is bound, and then a spawn where one is wanted.
pub open spec fn plan_for(wanted: bool, bound: Option<u16>, port: u16) -> Seq<ListenerAction> {
    if wanted {
        if bound == Some(port) {
            Seq::empty()
        } else if bound.is_some() {
            seq![ListenerAction::Stop, ListenerAction::Spawn(port)]
        } else {
            seq![ListenerAction::Spawn(port)]
        }
    } else {
        if bound.is_some() {
            seq![ListenerAction::Stop]
        } else {
            Seq::empty()
        }
    }
}

/// The state of a listener after `action`, where every bind succeeds.
pub open spec fn after_action(bound: Option<u16>, action: ListenerAction) -> Option<u16> {
    match action {
        ListenerAction::Stop => None,
        ListenerAction::Spawn(port) => Some(port),
    }
}

/// The state of a listener after the actions of `plan` in order, where
/// every bind succeeds.
pub open spec fn after_plan(bound: Option<u16>, plan: Seq<ListenerAction>) -> Option<u16>
    decreases plan.len(),
{
    if plan.len() == 0 {
        bound
    } else {
        after_action(after_plan(bound, plan.drop_last()), plan.last())
    }
}

/// The ingest listener together with the policy that binds it.
#[derive(Clone, Copy, Debug)]
pub struct RtmpServer {
    rtmp_listener: RtmpListener,
}

impl View for RtmpServer {
    type V = Option<u16>;

    closed spec fn view(&self) -> Option<u16> {
        self.rtmp_listener@
    }
}

fn settled(yp_configs: &[YPConfig], settings: &Settings, stack: &EachYellowPagesSettings) -> (yes:
    bool)
    requires
        settings.yellow_pages_settings.wf(),
    ensures
        yes == terms_settled(yp_configs@, *settings, *stack),
{
    if !stack.is_configured() {
        return true;
    }
    match find_config(yp_configs, stack.host.as_str()) {
        None => true,
        Some(config) => config.ignore_terms_check
            || settings.yellow_pages_settings.contains_terms(config.terms_url.as_str()),
    }
}

impl RtmpServer {
    /// A server whose listener is unbound.
    pub fn new() -> (server: Self)
        ensures
            server@.is_none(),
    {
        Self { rtmp_listener: RtmpListener::new() }
    }

    /// The port that the listener is bound to, if any.
    pub fn port(&self) -> (port: Option<u16>)
        ensures
            port == self@,
    {
        self.rtmp_listener.port()
    }

    /// Whether publishers are to be awaited under `settings`.
    pub fn should_listen(yp_configs: &[YPConfig], settings: &Settings) -> (wanted: bool)
        requires
            settings.yellow_pages_settings.wf(),
        ensures
            wanted == should_listen(yp_configs@, *settings),
    {
        let yp = &settings.yellow_pages_settings;
        (yp.ipv4.is_configured() || yp.ipv6.is_configured()) && settled(
            yp_configs,
            settings,
            &yp.ipv4,
        ) && settled(yp_configs, settings, &yp.ipv6)
    }

    /// What is to be done to the listener under `settings`, in this order,
    /// so that it is bound to the configured port exactly if publishers are
    /// to be awaited. Nothing is done where that holds already.
    pub fn listen_rtmp_if_need(&self, yp_configs: &[YPConfig], settings: &Settings) -> (plan: Vec<
        ListenerAction,
    >)
        requires
            settings.yellow_pages_settings.wf(),
        ensures
            plan@ == plan_for(
                should_listen(yp_configs@, *settings),
                self@,
                settings.general_settings.rtmp_listen_port,
            ),
    {
        let port = settings.general_settings.rtmp_listen_port;
        let mut plan: Vec<ListenerAction> = Vec::new();
        let bound = self.rtmp_listener.port();
        if Self::should_listen(yp_configs, settings) {
            let same = match bound {
                Some(running) => running == port,
                None => false,
            };
            if !same {
                if bound.is_some() {
                    plan.push(ListenerAction::Stop);
                }
                plan.push(ListenerAction::Spawn(port));
            }
        } else if bound.is_some() {
            plan.push(ListenerAction::Stop);
        }
        assert(plan@ =~= plan_for(should_listen(yp_configs@, *settings), self@, port));
        plan
    }

    /// Unbinds the listener. Returns whether it was bound, that is, whether
    /// there is a task to abort.
    pub fn stop_listener(&mut self) -> (was_bound: bool)
        ensures
            was_bound == old(self)@.is_some(),
            final(self)@ == after_action(old(self)@, ListenerAction::Stop),
    {
        self.rtmp_listener.stop_listener()
    }

    /// Records the attempt to bind the unbound listener to
    /// `rtmp_listen_port`. Returns whether it is bound.
    pub fn spawn_listener(&mut self, rtmp_listen_port: u16, bound: bool) -> (listening: bool)
        requires
            old(self)@.is_none(),
        ensures
            listening == bound,
            bound ==> final(self)@ == after_action(
                old(self)@,
                ListenerAction::Spawn(rtmp_listen_port),
            ),
            !bound ==> final(self)@.is_none(),
    {
        self.rtmp_listener.spawn_listener(rtmp_listen_port, bound)
    }
}

/// The plan does what it is for: once its actions are through, the
/// listener is bound to `port` if it is wanted, and unbound if it is not.
/// A spawn in the plan always finds the listener unbound.
pub proof fn law_plan_reaches_target(wanted: bool, bound: Option<u16>, port: u16)
    ensures
        after_plan(bound, plan_for(wanted, bound, port)) == (if wanted {
            Some(port)
        } else {
            None
        }),
        forall|i: int|
            0 <= i < plan_for(wanted, bound, port).len() && (#[trigger] plan_for(
                wanted,
                bound,
                port,
            )[i]) is Spawn ==> after_plan(bound, plan_for(wanted, bound, port).take(i)).is_none(),
{
    let plan = plan_for(wanted, bound, port);
    reveal_with_fuel(after_plan, 3);
    if plan.len() == 2 {
        assert(plan.drop_last() =~= seq![ListenerAction::Stop]);
        assert(plan.drop_last().drop_last() =~= Seq::<ListenerAction>::empty());
        assert(plan.take(1) =~= seq![ListenerAction::Stop]);
        assert(plan.take(1).drop_last() =~= Seq::<ListenerAction>::empty());
        assert(plan.take(0) =~= Seq::<ListenerAction>::empty());
    } else if plan.len() == 1 {
        assert(plan.drop_last() =~= Seq::<ListenerAction>::empty());
        assert(plan.take(0) =~= Seq::<ListenerAction>::empty());
    }
}

/// With no directory host on either stack the listener ends up unbound,
/// whatever its state was.
pub proof fn law_no_host_unbinds(yp_configs: Seq<YPConfig>, settings: Settings, bound: Option<u16>)
    requires
        !settings.yellow_pages_settings.ipv4.configured(),
        !settings.yellow_pages_settings.ipv6.configured(),
    ensures
        !should_listen(yp_configs, settings),
        after_plan(
            bound,
            plan_for(
                should_listen(yp_configs, settings),
                bound,
                settings.general_settings.rtmp_listen_port,
            ),
        ).is_none(),
{
    law_plan_reaches_target(false, bound, settings.general_settings.rtmp_listen_port);
}

/// While a stack with a directory host has a directory whose terms need
/// agreement and have none, the listener never ends up bound, and no spawn
/// is planned.
pub proof fn law_unagreed_terms_never_bind(
    yp_configs: Seq<YPConfig>,
    settings: Settings,
    stack: EachYellowPagesSettings,
    bound: Option<u16>,
)
    requires
        stack == settings.yellow_pages_settings.ipv4 || stack
            == settings.yellow_pages_settings.ipv6,
        stack.configured(),
        has_config(yp_configs, stack.host@),
        !config_of(yp_configs, stack.host@).ignore_terms_check,
        !settings.yellow_pages_settings.has_agreed(config_of(yp_configs, stack.host@).terms_url@),
    ensures
        !should_listen(yp_configs, settings),
        after_plan(
            bound,
            plan_for(
                should_listen(yp_configs, settings),
                bound,
                settings.general_settings.rtmp_listen_port,
            ),
        ).is_none(),
        forall|i: int|
            0 <= i < plan_for(
                should_listen(yp_configs, settings),
                bound,
                settings.general_settings.rtmp_listen_port,
            ).len() ==> !((#[trigger] plan_for(
                should_listen(yp_configs, settings),
                bound,
                settings.general_settings.rtmp_listen_port,
            )[i]) is Spawn),
{
    law_plan_reaches_target(false, bound, settings.general_settings.rtmp_listen_port);
}

/// A bound listener whose port no longer is the configured one is stopped
/// once and then spawned once on the configured port, in this order; one
/// that is bound to the configured port is left alone, whatever else of the
/// settings has changed.
pub proof fn law_port_change_restarts(yp_configs: Seq<YPConfig>, settings: Settings, running: u16)
    requires
        should_listen(yp_configs, settings),
    ensures
        running != settings.general_settings.rtmp_listen_port ==> plan_for(
            true,
            Some(running),
            settings.general_settings.rtmp_listen_port,
        ) == seq![
            ListenerAction::Stop,
            ListenerAction::Spawn(settings.general_settings.rtmp_listen_port),
        ],
        running == settings.general_settings.rtmp_listen_port ==> plan_for(
            true,
            Some(running),
            settings.general_settings.rtmp_listen_port,
        ) == Seq::<ListenerAction>::empty(),
{
}

} // verus!
