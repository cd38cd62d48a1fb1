//! Platform parameters: which arguments a derived platform parameter needs,
//! and how the provided arguments are described.
use vstd::prelude::*;

verus! {

/// Labels under which platform parameters are shown.
#[derive(Debug, PartialEq, Eq, Structural, Clone, Copy)]
pub enum DshPlatformLabel {
    Alias,
    CloudProvider,
    Description,
    IsProduction,
    IssuerEndpoint,
    Parameter,
    PrivateDomain,
    PublicDomain,
    Realm,
    Region,
    AccessTokenEndpoint,
    ConsoleDomain,
    ConsoleUrl,
    MqttMessagingApiEndpoint,
    MqttMessagingApiPort,
    MqttTokenEndpoint,
    RestApiDomain,
    RestApiEndpoint,
    RestTokenEndpoint,
    RobotClientId,
    SwaggerUrl,
    TracingUrl,
    InternalDomain,
    ProxyVhostDomain,
    RobotTenantClientId,
    TenantAppCatalogUrl,
    TenantConsoleUrl,
    TenantDataCatalogUrl,
    TenantMonitoringUrl,
    TenantPublicAppsDomain,
    BucketName,
    HttpMessagingApiUrlMulti,
    HttpMessagingApiUrlSingle,
    InternalServiceDomain,
    ProxyBrokerVhost,
    ProxyCommonName,
    ProxyConsumerGroup,
    ProxyConsumerGroupAcl,
    ProxySchemaStoreVhost,
    PublicVhostDomain,
    TenantAppCatalogAppUrl,
    TenantAppConsoleUrl,
    TenantPrivateAppDomain,
    TenantPrivateVhostDomain,
    TenantProxyPrivateBootstrapServers,
    TenantProxyPrivateSchemaStoreHost,
    TenantProxyPublicBootstrapServers,
    TenantProxyPublicSchemaStoreHost,
    TenantPublicAppDomain,
    TenantServiceConsoleUrl,
}

impl DshPlatformLabel {
    /// The text under which the label is shown.
    pub open spec fn text(self) -> Seq<char> {
        match self {
            DshPlatformLabel::Alias => "alias"@,
            DshPlatformLabel::CloudProvider => "cloud provider"@,
            DshPlatformLabel::Description => "description"@,
            DshPlatformLabel::IsProduction => "production"@,
            DshPlatformLabel::IssuerEndpoint => "issuer endpoint"@,
            DshPlatformLabel::Parameter => "parameter"@,
            DshPlatformLabel::PrivateDomain => "private domain"@,
            DshPlatformLabel::PublicDomain => "public domain"@,
            DshPlatformLabel::Realm => "realm"@,
            DshPlatformLabel::Region => "region"@,
            DshPlatformLabel::AccessTokenEndpoint => "access token endpoint"@,
            DshPlatformLabel::ConsoleDomain => "console domain"@,
            DshPlatformLabel::ConsoleUrl => "console url"@,
            DshPlatformLabel::MqttMessagingApiEndpoint => "mqtt messaging api endpoint"@,
            DshPlatformLabel::MqttMessagingApiPort => "mqtt messaging api port"@,
            DshPlatformLabel::MqttTokenEndpoint => "mqtt token endpoint"@,
            DshPlatformLabel::RestApiDomain => "rest api domain"@,
            DshPlatformLabel::RestApiEndpoint => "rest api endpoint"@,
            DshPlatformLabel::RestTokenEndpoint => "rest token endpoint"@,
            DshPlatformLabel::RobotClientId => "robot client id"@,
            DshPlatformLabel::SwaggerUrl => "swagger url"@,
            DshPlatformLabel::TracingUrl => "tracing url"@,
            DshPlatformLabel::InternalDomain => "internal domain"@,
            DshPlatformLabel::ProxyVhostDomain => "proxy vhost domain"@,
            DshPlatformLabel::RobotTenantClientId => "robot api client id"@,
            DshPlatformLabel::TenantAppCatalogUrl => "app catalog url"@,
            DshPlatformLabel::TenantConsoleUrl => "console url"@,
            DshPlatformLabel::TenantDataCatalogUrl => "data catalog url"@,
            DshPlatformLabel::TenantMonitoringUrl => "monitoring url"@,
            DshPlatformLabel::TenantPublicAppsDomain => "public apps domain"@,
            DshPlatformLabel::BucketName => "bucket name"@,
            DshPlatformLabel::HttpMessagingApiUrlMulti => "http messaging api url (multi)"@,
            DshPlatformLabel::HttpMessagingApiUrlSingle => "http messaging api url (single)"@,
            DshPlatformLabel::InternalServiceDomain => "internal service domain"@,
            DshPlatformLabel::ProxyBrokerVhost => "proxy broker vhost"@,
            DshPlatformLabel::ProxyCommonName => "proxy common name"@,
            DshPlatformLabel::ProxyConsumerGroup => "proxy consumer group"@,
            DshPlatformLabel::ProxyConsumerGroupAcl => "proxy consumer group acl"@,
            DshPlatformLabel::ProxySchemaStoreVhost => "proxy schema store vhost"@,
            DshPlatformLabel::PublicVhostDomain => "public vhost domain"@,
            DshPlatformLabel::TenantAppCatalogAppUrl => "app catalog url"@,
            DshPlatformLabel::TenantAppConsoleUrl => "app console url"@,
            DshPlatformLabel::TenantPrivateAppDomain => "private app domain"@,
            DshPlatformLabel::TenantPrivateVhostDomain => "private vhost domain"@,
            DshPlatformLabel::TenantProxyPrivateBootstrapServers => "proxy private bootstrap server"@,
            DshPlatformLabel::TenantProxyPrivateSchemaStoreHost => "proxy private schema store host"@,
            DshPlatformLabel::TenantProxyPublicBootstrapServers => "proxy public bootstrap server"@,
            DshPlatformLabel::TenantProxyPublicSchemaStoreHost => "proxy public schema store host"@,
            DshPlatformLabel::TenantPublicAppDomain => "public app domain"@,
            DshPlatformLabel::TenantServiceConsoleUrl => "service console url"@,
        }
    }

    /// The text under which the label is shown.
    pub fn as_str(&self) -> (s: &'static str)
        ensures
            s@ == self.text(),
    {
        match self {
            DshPlatformLabel::Alias => "alias",
            DshPlatformLabel::CloudProvider => "cloud provider",
            DshPlatformLabel::Description => "description",
            DshPlatformLabel::IsProduction => "production",
            DshPlatformLabel::IssuerEndpoint => "issuer endpoint",
            DshPlatformLabel::Parameter => "parameter",
            DshPlatformLabel::PrivateDomain => "private domain",
            DshPlatformLabel::PublicDomain => "public domain",
            DshPlatformLabel::Realm => "realm",
            DshPlatformLabel::Region => "region",
            DshPlatformLabel::AccessTokenEndpoint => "access token endpoint",
            DshPlatformLabel::ConsoleDomain => "console domain",
            DshPlatformLabel::ConsoleUrl => "console url",
            DshPlatformLabel::MqttMessagingApiEndpoint => "mqtt messaging api endpoint",
            DshPlatformLabel::MqttMessagingApiPort => "mqtt messaging api port",
            DshPlatformLabel::MqttTokenEndpoint => "mqtt token endpoint",
            DshPlatformLabel::RestApiDomain => "rest api domain",
            DshPlatformLabel::RestApiEndpoint => "rest api endpoint",
            DshPlatformLabel::RestTokenEndpoint => "rest token endpoint",
            DshPlatformLabel::RobotClientId => "robot client id",
            DshPlatformLabel::SwaggerUrl => "swagger url",
            DshPlatformLabel::TracingUrl => "tracing url",
            DshPlatformLabel::InternalDomain => "internal domain",
            DshPlatformLabel::ProxyVhostDomain => "proxy vhost domain",
            DshPlatformLabel::RobotTenantClientId => "robot api client id",
            DshPlatformLabel::TenantAppCatalogUrl => "app catalog url",
            DshPlatformLabel::TenantConsoleUrl => "console url",
            DshPlatformLabel::TenantDataCatalogUrl => "data catalog url",
            DshPlatformLabel::TenantMonitoringUrl => "monitoring url",
            DshPlatformLabel::TenantPublicAppsDomain => "public apps domain",
            DshPlatformLabel::BucketName => "bucket name",
            DshPlatformLabel::HttpMessagingApiUrlMulti => "http messaging api url (multi)",
            DshPlatformLabel::HttpMessagingApiUrlSingle => "http messaging api url (single)",
            DshPlatformLabel::InternalServiceDomain => "internal service domain",
            DshPlatformLabel::ProxyBrokerVhost => "proxy broker vhost",
            DshPlatformLabel::ProxyCommonName => "proxy common name",
            DshPlatformLabel::ProxyConsumerGroup => "proxy consumer group",
            DshPlatformLabel::ProxyConsumerGroupAcl => "proxy consumer group acl",
            DshPlatformLabel::ProxySchemaStoreVhost => "proxy schema store vhost",
            DshPlatformLabel::PublicVhostDomain => "public vhost domain",
            DshPlatformLabel::TenantAppCatalogAppUrl => "app catalog url",
            DshPlatformLabel::TenantAppConsoleUrl => "app console url",
            DshPlatformLabel::TenantPrivateAppDomain => "private app domain",
            DshPlatformLabel::TenantPrivateVhostDomain => "private vhost domain",
            DshPlatformLabel::TenantProxyPrivateBootstrapServers => "proxy private bootstrap server",
            DshPlatformLabel::TenantProxyPrivateSchemaStoreHost => "proxy private schema store host",
            DshPlatformLabel::TenantProxyPublicBootstrapServers => "proxy public bootstrap server",
            DshPlatformLabel::TenantProxyPublicSchemaStoreHost => "proxy public schema store host",
            DshPlatformLabel::TenantPublicAppDomain => "public app domain",
            DshPlatformLabel::TenantServiceConsoleUrl => "service console url",
        }
    }

    /// Whether the label shows the identifier of the subject.
    pub fn is_target_label(&self) -> (b: bool)
        ensures
            b == (*self == DshPlatformLabel::Parameter),
    {
        match self {
            DshPlatformLabel::Parameter => true,
            _ => false,
        }
    }
}


/// Which arguments a platform parameter is derived from, besides the
/// platform configuration and the tenant.
#[derive(Debug, PartialEq, Eq, Structural, Clone, Copy)]
pub struct RequiredArguments {
    pub app_id_required: bool,
    pub bucket_id_required: bool,
    pub proxy_id_required: bool,
    pub service_id_required: bool,
    pub topic_required: bool,
    pub vendor_id_required: bool,
    pub vhost_required: bool,
}

/// Requires no argument.
pub open spec fn no_arguments_required() -> RequiredArguments {
    RequiredArguments {
        app_id_required: false,
        bucket_id_required: false,
        proxy_id_required: false,
        service_id_required: false,
        topic_required: false,
        vendor_id_required: false,
        vhost_required: false,
    }
}

/// The arguments that the parameter shown under `label` is derived from.
pub open spec fn required_arguments_of(label: DshPlatformLabel) -> RequiredArguments {
    let none = no_arguments_required();
    match label {
        DshPlatformLabel::BucketName => RequiredArguments { bucket_id_required: true, ..none },
        DshPlatformLabel::TenantAppCatalogAppUrl => RequiredArguments { app_id_required: true, vendor_id_required: true, ..none },
        DshPlatformLabel::TenantAppConsoleUrl
        | DshPlatformLabel::TenantPrivateAppDomain
        | DshPlatformLabel::TenantPublicAppDomain => RequiredArguments { app_id_required: true, ..none },
        DshPlatformLabel::TenantServiceConsoleUrl
        | DshPlatformLabel::InternalServiceDomain => RequiredArguments { service_id_required: true, ..none },
        DshPlatformLabel::HttpMessagingApiUrlMulti
        | DshPlatformLabel::HttpMessagingApiUrlSingle => RequiredArguments { topic_required: true, ..none },
        DshPlatformLabel::TenantPrivateVhostDomain
        | DshPlatformLabel::PublicVhostDomain => RequiredArguments { vhost_required: true, ..none },
        DshPlatformLabel::ProxyBrokerVhost
        | DshPlatformLabel::ProxyCommonName
        | DshPlatformLabel::ProxyConsumerGroup
        | DshPlatformLabel::ProxyConsumerGroupAcl
        | DshPlatformLabel::ProxySchemaStoreVhost
        | DshPlatformLabel::TenantProxyPrivateBootstrapServers
        | DshPlatformLabel::TenantProxyPrivateSchemaStoreHost
        | DshPlatformLabel::TenantProxyPublicBootstrapServers
        | DshPlatformLabel::TenantProxyPublicSchemaStoreHost => RequiredArguments { proxy_id_required: true, ..none },
        _ => none,
    }
}

/// The arguments given for the derived platform parameters.
pub struct ProvidedArguments {
    pub app_id: Option<String>,
    pub bucket_id: Option<String>,
    pub proxy_id: Option<String>,
    pub service_id: Option<String>,
    pub topic_id: Option<String>,
    pub vendor_id: Option<String>,
    pub vhost: Option<String>,
}

/// The view of an optional string.
pub open spec fn opt_view(o: Option<String>) -> Option<Seq<char>> {
    match o {
        Some(s) => Some(s@),
        None => None,
    }
}

/// The mathematical view of [`ProvidedArguments`], argument by argument in
/// the order app, bucket, proxy, service, topic, vendor, vhost.
pub struct ProvidedArgumentsView {
    pub app_id: Option<Seq<char>>,
    pub bucket_id: Option<Seq<char>>,
    pub proxy_id: Option<Seq<char>>,
    pub service_id: Option<Seq<char>>,
    pub topic_id: Option<Seq<char>>,
    pub vendor_id: Option<Seq<char>>,
    pub vhost: Option<Seq<char>>,
}

impl View for ProvidedArguments {
    type V = ProvidedArgumentsView;

    open spec fn view(&self) -> ProvidedArgumentsView {
        ProvidedArgumentsView {
            app_id: opt_view(self.app_id),
            bucket_id: opt_view(self.bucket_id),
            proxy_id: opt_view(self.proxy_id),
            service_id: opt_view(self.service_id),
            topic_id: opt_view(self.topic_id),
            vendor_id: opt_view(self.vendor_id),
            vhost: opt_view(self.vhost),
        }
    }
}

/// Whether every argument that `required` names is provided.
pub open spec fn all_provided(required: RequiredArguments, provided: ProvidedArgumentsView) -> bool {
    &&& (!required.app_id_required || provided.app_id is Some)
    &&& (!required.bucket_id_required || provided.bucket_id is Some)
    &&& (!required.proxy_id_required || provided.proxy_id is Some)
    &&& (!required.service_id_required || provided.service_id is Some)
    &&& (!required.topic_required || provided.topic_id is Some)
    &&& (!required.vendor_id_required || provided.vendor_id is Some)
    &&& (!required.vhost_required || provided.vhost is Some)
}

impl DshPlatformLabel {
    /// The arguments that the parameter shown under this label is derived from.
    pub fn required_arguments(&self) -> (r: RequiredArguments)
        ensures
            r == required_arguments_of(*self),
    {
        let none = RequiredArguments {
            app_id_required: false,
            bucket_id_required: false,
            proxy_id_required: false,
            service_id_required: false,
            topic_required: false,
            vendor_id_required: false,
            vhost_required: false,
        };
        match self {
            DshPlatformLabel::BucketName => RequiredArguments { bucket_id_required: true, ..none },
            DshPlatformLabel::TenantAppCatalogAppUrl => RequiredArguments { app_id_required: true, vendor_id_required: true, ..none },
            DshPlatformLabel::TenantAppConsoleUrl
            | DshPlatformLabel::TenantPrivateAppDomain
            | DshPlatformLabel::TenantPublicAppDomain => RequiredArguments { app_id_required: true, ..none },
            DshPlatformLabel::TenantServiceConsoleUrl
            | DshPlatformLabel::InternalServiceDomain => RequiredArguments { service_id_required: true, ..none },
            DshPlatformLabel::HttpMessagingApiUrlMulti
            | DshPlatformLabel::HttpMessagingApiUrlSingle => RequiredArguments { topic_required: true, ..none },
            DshPlatformLabel::TenantPrivateVhostDomain
            | DshPlatformLabel::PublicVhostDomain => RequiredArguments { vhost_required: true, ..none },
            DshPlatformLabel::ProxyBrokerVhost
            | DshPlatformLabel::ProxyCommonName
            | DshPlatformLabel::ProxyConsumerGroup
            | DshPlatformLabel::ProxyConsumerGroupAcl
            | DshPlatformLabel::ProxySchemaStoreVhost
            | DshPlatformLabel::TenantProxyPrivateBootstrapServers
            | DshPlatformLabel::TenantProxyPrivateSchemaStoreHost
            | DshPlatformLabel::TenantProxyPublicBootstrapServers
            | DshPlatformLabel::TenantProxyPublicSchemaStoreHost => RequiredArguments { proxy_id_required: true, ..none },
            _ => none,
        }
    }

    /// Whether every argument that the parameter shown under this label is
    /// derived from has been provided.
    pub fn all_required_arguments_provided(&self, provided_argument: &ProvidedArguments) -> (b: bool)
        ensures
            b == all_provided(required_arguments_of(*self), provided_argument@),
    {
        let r = self.required_arguments();
        (!r.app_id_required || provided_argument.app_id.is_some())
            && (!r.bucket_id_required || provided_argument.bucket_id.is_some())
            && (!r.proxy_id_required || provided_argument.proxy_id.is_some())
            && (!r.service_id_required || provided_argument.service_id.is_some())
            && (!r.topic_required || provided_argument.topic_id.is_some())
            && (!r.vendor_id_required || provided_argument.vendor_id.is_some())
            && (!r.vhost_required || provided_argument.vhost.is_some())
    }
}

/// The provided arguments as rows of argument name and value, in the order
/// app, bucket, proxy, service, topic, vendor, vhost.
pub open spec fn argument_rows(p: ProvidedArgumentsView) -> Seq<(Seq<char>, Seq<char>)> {
    let row = |name: Seq<char>, o: Option<Seq<char>>| match o {
        Some(v) => seq![(name, v)],
        None => Seq::<(Seq<char>, Seq<char>)>::empty(),
    };
    row("app"@, p.app_id) + row("bucket"@, p.bucket_id) + row("proxy"@, p.proxy_id) + row("service"@, p.service_id)
        + row("topic"@, p.topic_id) + row("vendor"@, p.vendor_id) + row("vhost"@, p.vhost)
}

/// Views of rows of two strings.
pub open spec fn row_views(v: Seq<(String, String)>) -> Seq<(Seq<char>, Seq<char>)> {
    v.map_values(|r: (String, String)| (r.0@, r.1@))
}

/// Appends the row `(name, value)` when `value` is there.
fn push_row(rows: &mut Vec<(String, String)>, name: &str, value: &Option<String>)
    ensures
        row_views(final(rows)@) == row_views(old(rows)@) + match opt_view(*value) {
            Some(v) => seq![(name@, v)],
            None => Seq::<(Seq<char>, Seq<char>)>::empty(),
        },
{
    let ghost before = row_views(rows@);
    match value {
        Some(v) => {
            rows.push((String::from_str(name), v.clone()));
            assert(row_views(rows@) =~= before + seq![(name@, v@)]);
        }
        None => {
            assert(row_views(rows@) =~= before + Seq::<(Seq<char>, Seq<char>)>::empty());
        }
    }
}

impl ProvidedArguments {
    /// The provided arguments as rows of argument name and value, or `None`
    /// when no argument is provided.
    pub fn describe(&self) -> (res: Option<Vec<(String, String)>>)
        ensures
            match res {
                Some(rows) => row_views(rows@) == argument_rows(self@) && rows@.len() > 0,
                None => argument_rows(self@).len() == 0,
            },
    {
        let mut rows: Vec<(String, String)> = Vec::new();
        assert(row_views(rows@) =~= Seq::<(Seq<char>, Seq<char>)>::empty());
        proof {
            reveal_strlit("app");
            reveal_strlit("bucket");
            reveal_strlit("proxy");
            reveal_strlit("service");
            reveal_strlit("topic");
            reveal_strlit("vendor");
            reveal_strlit("vhost");
        }
        push_row(&mut rows, "app", &self.app_id);
        push_row(&mut rows, "bucket", &self.bucket_id);
        push_row(&mut rows, "proxy", &self.proxy_id);
        push_row(&mut rows, "service", &self.service_id);
        push_row(&mut rows, "topic", &self.topic_id);
        push_row(&mut rows, "vendor", &self.vendor_id);
        push_row(&mut rows, "vhost", &self.vhost);
        assert(row_views(rows@) =~= argument_rows(self@));
        if rows.len() == 0 {
            None
        } else {
            Some(rows)
        }
    }
}

/// Providing more arguments never hides a parameter that was shown: when
/// `more` provides every argument that `fewer` provides, each parameter whose
/// arguments `fewer` provides also has its arguments in `more`.
pub proof fn lemma_more_arguments_show_more(label: DshPlatformLabel, fewer: ProvidedArgumentsView, more: ProvidedArgumentsView)
    requires
        fewer.app_id is Some ==> more.app_id is Some,
        fewer.bucket_id is Some ==> more.bucket_id is Some,
        fewer.proxy_id is Some ==> more.proxy_id is Some,
        fewer.service_id is Some ==> more.service_id is Some,
        fewer.topic_id is Some ==> more.topic_id is Some,
        fewer.vendor_id is Some ==> more.vendor_id is Some,
        fewer.vhost is Some ==> more.vhost is Some,
        all_provided(required_arguments_of(label), fewer),
    ensures
        all_provided(required_arguments_of(label), more),
{
}

/// Without any argument, exactly the parameters that need no argument are
/// shown, and the arguments are described by no row.
pub proof fn lemma_no_arguments(label: DshPlatformLabel, provided: ProvidedArgumentsView)
    requires
        provided.app_id is None,
        provided.bucket_id is None,
        provided.proxy_id is None,
        provided.service_id is None,
        provided.topic_id is None,
        provided.vendor_id is None,
        provided.vhost is None,
    ensures
        all_provided(required_arguments_of(label), provided) <==> required_arguments_of(label) == no_arguments_required(),
        argument_rows(provided).len() == 0,
{
    assert(argument_rows(provided) =~= Seq::<(Seq<char>, Seq<char>)>::empty());
}

} // verus!
