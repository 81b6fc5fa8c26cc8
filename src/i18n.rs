//! Interface texts in Chinese and English.
use vstd::prelude::*;

verus! {

/// Interface language.
#[derive(Debug, Clone, Copy, PartialEq, Eq, Hash, Structural)]
pub enum Language {
    Chinese,
    English,
}

impl Default for Language {
    fn default() -> (r: Self)
        ensures
            r == Language::Chinese,
    {
        Language::Chinese
    }
}

impl Language {
    /// The language tag (`zh-CN`, `en-US`).
    pub fn code(&self) -> (r: &'static str)
        ensures
            r@ == match self {
                Language::Chinese => "zh-CN"@,
                Language::English => "en-US"@,
            },
    {
        match self {
            Language::Chinese => "zh-CN",
            Language::English => "en-US",
        }
    }

    /// The language's name in itself.
    pub fn display_name(&self) -> (r: &'static str)
        ensures
            r@ == match self {
                Language::Chinese => "中文"@,
                Language::English => "English"@,
            },
    {
        match self {
            Language::Chinese => "中文",
            Language::English => "English",
        }
    }
}

/// Keys of the interface texts.
#[derive(Debug, Clone, Copy, PartialEq, Eq, Hash, Structural)]
pub enum TextKey {
    // 导航
    AppTitle,
    Dashboard,
    Processes,
    Policies,
    Settings,

    // 状态
    AdminRequired,
    AdminGranted,
    RefreshSuccess,
    RefreshFailed,
    Refreshing,
    AutoRefresh,
    RefreshNow,

    // 仪表盘
    SystemOverview,
    TotalConnections,
    AvailablePorts,
    PortUsage,
    ConnectionStateDistribution,
    ActiveConnections,
    WaitingClose,
    NeedsAttention,
    ListeningPorts,
    Top5Processes,
    ProcessName,
    Pid,
    Connections,
    HealthScore,

    // 进程列表
    ProcessDetails,
    AddPolicy,
    PolicyAdded,

    // 策略管理
    PolicyManagement,
    PolicyDescription,
    NoPolicies,
    AutoOptimize,
    Enabled,
    Disabled,
    TimeWaitThreshold,
    CloseWaitThreshold,
    MaxConnections,
    Unlimited,
    ThresholdAction,
    ActionAlert,
    ActionOptimize,
    ActionRestart,
    ActionIgnore,
    DeletePolicy,
    PolicyDeleted,
    SavePolicy,
    PolicySaved,
    PolicyTip,

    // 全局默认设置
    GlobalDefaultSettings,
    GlobalDefaultDesc,
    ResetToDefault,
    DefaultsReset,
    ApplyToAll,
    AppliedToAll,

    // 设置
    TcpSettings,
    AdminRequiredForSettings,
    QuickConfig,
    HighPerformance,
    Conservative,
    ReadCurrent,
    ConfigLoaded,
    DetailedConfig,
    MaxUserPort,
    TimeWaitDelay,
    DynamicPortStart,
    Recommended,
    ApplyConfig,
    ConfigApplied,
    ApplyFailed,
    RebootRequired,

    // 语言
    LanguageLabel,
    LanguageChanged,

    // 帮助
    Help,
    HelpTitle,
    HelpAbout,
    HelpAboutDesc,
    HelpFeatures,
    HelpDashboard,
    HelpDashboardDesc,
    HelpProcesses,
    HelpProcessesDesc,
    HelpPolicies,
    HelpPoliciesDesc,
    HelpSettingsHelp,
    HelpSettingsDesc,
    HelpTcpStates,
    HelpTcpStatesDesc,
    HelpTroubleshooting,
    HelpTroubleshootingDesc,
    HelpVersion,
}

/// The text of one key in one language.
#[derive(Debug, Clone, Copy)]
pub struct TextEntry {
    pub language: Language,
    pub key: TextKey,
    pub text: &'static str,
}

/// The text recorded last for `language` and `key` in `entries`.
pub open spec fn lookup_text(entries: Seq<TextEntry>, language: Language, key: TextKey) -> Option<
    Seq<char>,
>
    decreases entries.len(),
{
    if entries.len() == 0 {
        None
    } else if entries.last().language == language && entries.last().key == key {
        Some(entries.last().text@)
    } else {
        lookup_text(entries.drop_last(), language, key)
    }
}

/// The interface texts of both languages and the current language.
#[derive(Debug, Clone)]
pub struct I18n {
    current_language: Language,
    texts: Vec<TextEntry>,
}

impl Default for I18n {
    fn default() -> (r: Self)
        ensures
            r.language() == Language::Chinese,
    {
        I18n::new()
    }
}

impl I18n {
    pub closed spec fn language(&self) -> Language {
        self.current_language
    }

    /// The recorded texts; a later entry for the same language and key wins.
    pub closed spec fn entries(&self) -> Seq<TextEntry> {
        self.texts@
    }

    /// Both tables loaded; Chinese selected.
    pub fn new() -> (r: Self)
        ensures
            r.language() == Language::Chinese,
    {
        let mut texts: Vec<TextEntry> = Vec::new();
        I18n::load_chinese(&mut texts);
        I18n::load_english(&mut texts);
        I18n { current_language: Language::Chinese, texts }
    }

    pub fn set_language(&mut self, lang: Language)
        ensures
            final(self).language() == lang,
            final(self).entries() == old(self).entries(),
    {
        self.current_language = lang;
    }

    pub fn current_language(&self) -> (r: Language)
        ensures
            r == self.language(),
    {
        self.current_language
    }

    /// The text of `key` in the current language, or `???` when there is none.
    pub fn t(&self, key: TextKey) -> (r: &'static str)
        ensures
            r@ == match lookup_text(self.entries(), self.language(), key) {
                Some(s) => s,
                None => "???"@,
            },
    {
        let mut i: usize = self.texts.len();
        assert(self.texts@.take(i as int) =~= self.texts@);
        while i > 0
            invariant
                i <= self.texts@.len(),
                lookup_text(self.texts@, self.current_language, key) == lookup_text(
                    self.texts@.take(i as int),
                    self.current_language,
                    key,
                ),
            decreases i,
        {
            assert(self.texts@.take(i as int).drop_last() =~= self.texts@.take(i - 1));
            let e = &self.texts[i - 1];
            if e.language == self.current_language && e.key == key {
                return e.text;
            }
            i = i - 1;
        }
        "???"
    }

    fn load_chinese(texts: &mut Vec<TextEntry>) {
        let lang = Language::Chinese;
        // 导航
        texts.push(TextEntry { language: lang, key: TextKey::AppTitle, text: "Smart TCP Manager" });
        texts.push(TextEntry { language: lang, key: TextKey::Dashboard, text: "📊 仪表盘" });
        texts.push(TextEntry { language: lang, key: TextKey::Processes, text: "📋 进程列表" });
        texts.push(TextEntry { language: lang, key: TextKey::Policies, text: "📜 策略管理" });
        texts.push(TextEntry { language: lang, key: TextKey::Settings, text: "⚙️ 系统设置" });

        // 状态
        texts.push(TextEntry { language: lang, key: TextKey::AdminRequired, text: "⚠️ 需要管理员权限" });
        texts.push(TextEntry { language: lang, key: TextKey::AdminGranted, text: "✓ 管理员" });
        texts.push(TextEntry { language: lang, key: TextKey::RefreshSuccess, text: "刷新成功" });
        texts.push(TextEntry { language: lang, key: TextKey::RefreshFailed, text: "刷新失败" });
        texts.push(TextEntry { language: lang, key: TextKey::Refreshing, text: "正在刷新..." });
        texts.push(TextEntry { language: lang, key: TextKey::AutoRefresh, text: "自动刷新" });
        texts.push(TextEntry { language: lang, key: TextKey::RefreshNow, text: "🔄 立即刷新" });

        // 仪表盘
        texts.push(TextEntry { language: lang, key: TextKey::SystemOverview, text: "系统TCP连接概览" });
        texts.push(TextEntry { language: lang, key: TextKey::TotalConnections, text: "总连接数" });
        texts.push(TextEntry { language: lang, key: TextKey::AvailablePorts, text: "可用端口" });
        texts.push(TextEntry { language: lang, key: TextKey::PortUsage, text: "端口使用率" });
        texts.push(TextEntry { language: lang, key: TextKey::ConnectionStateDistribution, text: "连接状态分布" });
        texts.push(TextEntry { language: lang, key: TextKey::ActiveConnections, text: "活跃连接" });
        texts.push(TextEntry { language: lang, key: TextKey::WaitingClose, text: "等待关闭" });
        texts.push(TextEntry { language: lang, key: TextKey::NeedsAttention, text: "需注意" });
        texts.push(TextEntry { language: lang, key: TextKey::ListeningPorts, text: "监听端口" });
        texts.push(TextEntry { language: lang, key: TextKey::Top5Processes, text: "连接数Top 5进程" });
        texts.push(TextEntry { language: lang, key: TextKey::ProcessName, text: "进程名" });
        texts.push(TextEntry { language: lang, key: TextKey::Pid, text: "PID" });
        texts.push(TextEntry { language: lang, key: TextKey::Connections, text: "连接数" });
        texts.push(TextEntry { language: lang, key: TextKey::HealthScore, text: "健康度" });

        // 进程列表
        texts.push(TextEntry { language: lang, key: TextKey::ProcessDetails, text: "进程TCP连接详情" });
        texts.push(TextEntry { language: lang, key: TextKey::AddPolicy, text: "添加策略" });
        texts.push(TextEntry { language: lang, key: TextKey::PolicyAdded, text: "已添加策略" });

        // 策略管理
        texts.push(TextEntry { language: lang, key: TextKey::PolicyManagement, text: "应用策略管理" });
        texts.push(TextEntry { language: lang, key: TextKey::PolicyDescription, text: "为不同应用配置不同的TCP连接优化策略" });
        texts.push(TextEntry { language: lang, key: TextKey::NoPolicies, text: "暂无策略，请在进程列表中添加" });
        texts.push(TextEntry { language: lang, key: TextKey::AutoOptimize, text: "自动优化" });
        texts.push(TextEntry { language: lang, key: TextKey::Enabled, text: "✓ 开启" });
        texts.push(TextEntry { language: lang, key: TextKey::Disabled, text: "✗ 关闭" });
        texts.push(TextEntry { language: lang, key: TextKey::TimeWaitThreshold, text: "TIME_WAIT阈值" });
        texts.push(TextEntry { language: lang, key: TextKey::CloseWaitThreshold, text: "CLOSE_WAIT阈值" });
        texts.push(TextEntry { language: lang, key: TextKey::MaxConnections, text: "最大连接数" });
        texts.push(TextEntry { language: lang, key: TextKey::Unlimited, text: "不限制" });
        texts.push(TextEntry { language: lang, key: TextKey::ThresholdAction, text: "超阈值动作" });
        texts.push(TextEntry { language: lang, key: TextKey::ActionAlert, text: "告警" });
        texts.push(TextEntry { language: lang, key: TextKey::ActionOptimize, text: "自动优化" });
        texts.push(TextEntry { language: lang, key: TextKey::ActionRestart, text: "重启进程" });
        texts.push(TextEntry { language: lang, key: TextKey::ActionIgnore, text: "忽略" });
        texts.push(TextEntry { language: lang, key: TextKey::DeletePolicy, text: "🗑 删除" });
        texts.push(TextEntry { language: lang, key: TextKey::PolicyDeleted, text: "已删除策略" });
        texts.push(TextEntry { language: lang, key: TextKey::SavePolicy, text: "💾 保存修改" });
        texts.push(TextEntry { language: lang, key: TextKey::PolicySaved, text: "策略已保存" });
        texts.push(TextEntry { language: lang, key: TextKey::PolicyTip, text: "💡 提示：在进程列表中点击\"添加策略\"为特定进程创建优化规则。每个进程只能有一个策略。" });

        // 全局默认设置
        texts.push(TextEntry { language: lang, key: TextKey::GlobalDefaultSettings, text: "🌐 全局默认设置" });
        texts.push(TextEntry { language: lang, key: TextKey::GlobalDefaultDesc, text: "没有单独策略的进程将使用此默认设置" });
        texts.push(TextEntry { language: lang, key: TextKey::ResetToDefault, text: "🔄 恢复默认值" });
        texts.push(TextEntry { language: lang, key: TextKey::DefaultsReset, text: "已恢复默认值" });
        texts.push(TextEntry { language: lang, key: TextKey::ApplyToAll, text: "📋 应用到所有策略" });
        texts.push(TextEntry { language: lang, key: TextKey::AppliedToAll, text: "已应用到所有策略" });

        // 设置
        texts.push(TextEntry { language: lang, key: TextKey::TcpSettings, text: "TCP系统参数设置" });
        texts.push(TextEntry { language: lang, key: TextKey::AdminRequiredForSettings, text: "⚠️ 需要管理员权限才能修改系统设置" });
        texts.push(TextEntry { language: lang, key: TextKey::QuickConfig, text: "快速配置" });
        texts.push(TextEntry { language: lang, key: TextKey::HighPerformance, text: "🚀 高性能配置" });
        texts.push(TextEntry { language: lang, key: TextKey::Conservative, text: "🛡 保守配置" });
        texts.push(TextEntry { language: lang, key: TextKey::ReadCurrent, text: "🔄 读取当前" });
        texts.push(TextEntry { language: lang, key: TextKey::ConfigLoaded, text: "配置已加载" });
        texts.push(TextEntry { language: lang, key: TextKey::DetailedConfig, text: "详细配置" });
        texts.push(TextEntry { language: lang, key: TextKey::MaxUserPort, text: "最大用户端口 (MaxUserPort)" });
        texts.push(TextEntry { language: lang, key: TextKey::TimeWaitDelay, text: "TIME_WAIT等待时间 (秒)" });
        texts.push(TextEntry { language: lang, key: TextKey::DynamicPortStart, text: "动态端口起始" });
        texts.push(TextEntry { language: lang, key: TextKey::Recommended, text: "推荐" });
        texts.push(TextEntry { language: lang, key: TextKey::ApplyConfig, text: "✅ 应用配置" });
        texts.push(TextEntry { language: lang, key: TextKey::ConfigApplied, text: "配置已应用！可能需要重启系统生效。" });
        texts.push(TextEntry { language: lang, key: TextKey::ApplyFailed, text: "应用失败" });
        texts.push(TextEntry { language: lang, key: TextKey::RebootRequired, text: "⚠️ 修改后需要重启系统生效" });

        // 语言
        texts.push(TextEntry { language: lang, key: TextKey::LanguageLabel, text: "🌐 语言" });
        texts.push(TextEntry { language: lang, key: TextKey::LanguageChanged, text: "语言已切换" });

        // 帮助
        texts.push(TextEntry { language: lang, key: TextKey::Help, text: "❓ 帮助" });
        texts.push(TextEntry { language: lang, key: TextKey::HelpTitle, text: "📖 使用指南" });
        texts.push(TextEntry { language: lang, key: TextKey::HelpAbout, text: "关于本软件" });
        texts.push(TextEntry { language: lang, key: TextKey::HelpAboutDesc, text: "Smart TCP Manager 是一款跨平台的 TCP 连接管理和优化工具。\n支持 Windows、macOS 和 Linux，帮助您实时监控网络连接状态，\n识别潜在问题，并优化 TCP 参数以提升网络性能。" });
        texts.push(TextEntry { language: lang, key: TextKey::HelpFeatures, text: "📋 功能说明" });
        texts.push(TextEntry { language: lang, key: TextKey::HelpDashboard, text: "📊 仪表盘" });
        texts.push(TextEntry { language: lang, key: TextKey::HelpDashboardDesc, text: "显示系统 TCP 连接的整体概览：\n  • 总连接数、可用端口数、端口使用率\n  • 各状态连接分布（ESTABLISHED、TIME_WAIT 等）\n  • Top 5 占用连接最多的进程及其健康度评分" });
        texts.push(TextEntry { language: lang, key: TextKey::HelpProcesses, text: "📋 进程列表" });
        texts.push(TextEntry { language: lang, key: TextKey::HelpProcessesDesc, text: "查看每个进程的详细连接信息：\n  • 进程名、PID、各状态连接数量\n  • 健康度评分（100分制，越高越好）\n  • 点击「添加策略」选择策略模板：\n    - 📊 默认策略：通用配置\n    - 🚀 高性能：游戏/下载器\n    - 🕷️ 采集/爬虫：积极清理 CLOSE_WAIT\n    - 🖥️ 服务器：高并发服务\n    - 🔒 受限：限制连接数" });
        texts.push(TextEntry { language: lang, key: TextKey::HelpPolicies, text: "📜 策略管理" });
        texts.push(TextEntry { language: lang, key: TextKey::HelpPoliciesDesc, text: "为不同应用配置个性化的优化规则：\n  • TIME_WAIT 阈值：建议 100-500（超过会触发动作）\n  • CLOSE_WAIT 阈值：建议 20-100（堆积表示程序未正确关闭连接）\n  • 最大连接数：限制单个进程的连接数量\n  • 超阈值动作：告警、自动优化、忽略\n\n💡 采集工具推荐使用「🕷️ 采集/爬虫」模板，积极清理 CLOSE_WAIT 防止卡死" });
        texts.push(TextEntry { language: lang, key: TextKey::HelpSettingsHelp, text: "⚙️ 系统设置" });
        texts.push(TextEntry { language: lang, key: TextKey::HelpSettingsDesc, text: "调整操作系统级别的 TCP 参数（需要管理员权限）：\n  • 最大用户端口：默认 5000，建议 32768-65534\n  • TIME_WAIT 延迟：默认 120秒，建议 30-60秒\n  • 动态端口起始：默认 49152，可按需调整" });
        texts.push(TextEntry { language: lang, key: TextKey::HelpTcpStates, text: "🔍 TCP 状态说明" });
        texts.push(TextEntry { language: lang, key: TextKey::HelpTcpStatesDesc, text: "• ESTABLISHED（绿色）：正常活跃连接\n• TIME_WAIT（黄色）：等待关闭的连接，过多会占用端口\n• CLOSE_WAIT（红色）：对方已关闭，等待本地关闭，堆积说明程序有问题\n• LISTEN（蓝色）：监听端口，等待连接\n• FIN_WAIT/LAST_ACK：正在关闭中的连接" });
        texts.push(TextEntry { language: lang, key: TextKey::HelpTroubleshooting, text: "🛠 常见问题" });
        texts.push(TextEntry { language: lang, key: TextKey::HelpTroubleshootingDesc, text: "Q: 端口使用率过高怎么办？\nA: 增大最大用户端口数，减小 TIME_WAIT 延迟时间\n\nQ: 某进程 CLOSE_WAIT 很多？\nA: 这是程序问题，建议重启该进程或联系开发者\n\nQ: 修改设置后不生效？\nA: 部分设置需要重启系统才能生效" });
        texts.push(TextEntry { language: lang, key: TextKey::HelpVersion, text: "版本" });
    }

    fn load_english(texts: &mut Vec<TextEntry>) {
        let lang = Language::English;
        // Navigation
        texts.push(TextEntry { language: lang, key: TextKey::AppTitle, text: "Smart TCP Manager" });
        texts.push(TextEntry { language: lang, key: TextKey::Dashboard, text: "📊 Dashboard" });
        texts.push(TextEntry { language: lang, key: TextKey::Processes, text: "📋 Processes" });
        texts.push(TextEntry { language: lang, key: TextKey::Policies, text: "📜 Policies" });
        texts.push(TextEntry { language: lang, key: TextKey::Settings, text: "⚙️ Settings" });

        // Status
        texts.push(TextEntry { language: lang, key: TextKey::AdminRequired, text: "⚠️ Admin Required" });
        texts.push(TextEntry { language: lang, key: TextKey::AdminGranted, text: "✓ Admin" });
        texts.push(TextEntry { language: lang, key: TextKey::RefreshSuccess, text: "Refresh Success" });
        texts.push(TextEntry { language: lang, key: TextKey::RefreshFailed, text: "Refresh Failed" });
        texts.push(TextEntry { language: lang, key: TextKey::Refreshing, text: "Refreshing..." });
        texts.push(TextEntry { language: lang, key: TextKey::AutoRefresh, text: "Auto Refresh" });
        texts.push(TextEntry { language: lang, key: TextKey::RefreshNow, text: "🔄 Refresh" });

        // Dashboard
        texts.push(TextEntry { language: lang, key: TextKey::SystemOverview, text: "System TCP Overview" });
        texts.push(TextEntry { language: lang, key: TextKey::TotalConnections, text: "Total Connections" });
        texts.push(TextEntry { language: lang, key: TextKey::AvailablePorts, text: "Available Ports" });
        texts.push(TextEntry { language: lang, key: TextKey::PortUsage, text: "Port Usage" });
        texts.push(TextEntry { language: lang, key: TextKey::ConnectionStateDistribution, text: "Connection State Distribution" });
        texts.push(TextEntry { language: lang, key: TextKey::ActiveConnections, text: "Active" });
        texts.push(TextEntry { language: lang, key: TextKey::WaitingClose, text: "Waiting Close" });
        texts.push(TextEntry { language: lang, key: TextKey::NeedsAttention, text: "Needs Attention" });
        texts.push(TextEntry { language: lang, key: TextKey::ListeningPorts, text: "Listening" });
        texts.push(TextEntry { language: lang, key: TextKey::Top5Processes, text: "Top 5 Processes by Connections" });
        texts.push(TextEntry { language: lang, key: TextKey::ProcessName, text: "Process" });
        texts.push(TextEntry { language: lang, key: TextKey::Pid, text: "PID" });
        texts.push(TextEntry { language: lang, key: TextKey::Connections, text: "Connections" });
        texts.push(TextEntry { language: lang, key: TextKey::HealthScore, text: "Health" });

        // Process List
        texts.push(TextEntry { language: lang, key: TextKey::ProcessDetails, text: "Process TCP Details" });
        texts.push(TextEntry { language: lang, key: TextKey::AddPolicy, text: "Add Policy" });
        texts.push(TextEntry { language: lang, key: TextKey::PolicyAdded, text: "Policy Added" });

        // Policy Management
        texts.push(TextEntry { language: lang, key: TextKey::PolicyManagement, text: "Policy Management" });
        texts.push(TextEntry { language: lang, key: TextKey::PolicyDescription, text: "Configure different TCP optimization policies for different applications" });
        texts.push(TextEntry { language: lang, key: TextKey::NoPolicies, text: "No policies. Add from process list." });
        texts.push(TextEntry { language: lang, key: TextKey::AutoOptimize, text: "Auto Optimize" });
        texts.push(TextEntry { language: lang, key: TextKey::Enabled, text: "✓ Enabled" });
        texts.push(TextEntry { language: lang, key: TextKey::Disabled, text: "✗ Disabled" });
        texts.push(TextEntry { language: lang, key: TextKey::TimeWaitThreshold, text: "TIME_WAIT Threshold" });
        texts.push(TextEntry { language: lang, key: TextKey::CloseWaitThreshold, text: "CLOSE_WAIT Threshold" });
        texts.push(TextEntry { language: lang, key: TextKey::MaxConnections, text: "Max Connections" });
        texts.push(TextEntry { language: lang, key: TextKey::Unlimited, text: "Unlimited" });
        texts.push(TextEntry { language: lang, key: TextKey::ThresholdAction, text: "Threshold Action" });
        texts.push(TextEntry { language: lang, key: TextKey::ActionAlert, text: "Alert" });
        texts.push(TextEntry { language: lang, key: TextKey::ActionOptimize, text: "Auto Optimize" });
        texts.push(TextEntry { language: lang, key: TextKey::ActionRestart, text: "Restart Process" });
        texts.push(TextEntry { language: lang, key: TextKey::ActionIgnore, text: "Ignore" });
        texts.push(TextEntry { language: lang, key: TextKey::DeletePolicy, text: "🗑 Delete" });
        texts.push(TextEntry { language: lang, key: TextKey::PolicyDeleted, text: "Policy Deleted" });
        texts.push(TextEntry { language: lang, key: TextKey::SavePolicy, text: "💾 Save" });
        texts.push(TextEntry { language: lang, key: TextKey::PolicySaved, text: "Policy Saved" });
        texts.push(TextEntry { language: lang, key: TextKey::PolicyTip, text: "💡 Tip: Click \"Add Policy\" in the process list to create optimization rules. Each process can only have one policy." });

        // Global default settings
        texts.push(TextEntry { language: lang, key: TextKey::GlobalDefaultSettings, text: "🌐 Global Default Settings" });
        texts.push(TextEntry { language: lang, key: TextKey::GlobalDefaultDesc, text: "Processes without specific policies will use these defaults" });
        texts.push(TextEntry { language: lang, key: TextKey::ResetToDefault, text: "🔄 Reset to Defaults" });
        texts.push(TextEntry { language: lang, key: TextKey::DefaultsReset, text: "Defaults Reset" });
        texts.push(TextEntry { language: lang, key: TextKey::ApplyToAll, text: "📋 Apply to All Policies" });
        texts.push(TextEntry { language: lang, key: TextKey::AppliedToAll, text: "Applied to All Policies" });

        // Settings
        texts.push(TextEntry { language: lang, key: TextKey::TcpSettings, text: "TCP System Settings" });
        texts.push(TextEntry { language: lang, key: TextKey::AdminRequiredForSettings, text: "⚠️ Admin privileges required to modify system settings" });
        texts.push(TextEntry { language: lang, key: TextKey::QuickConfig, text: "Quick Config" });
        texts.push(TextEntry { language: lang, key: TextKey::HighPerformance, text: "🚀 High Performance" });
        texts.push(TextEntry { language: lang, key: TextKey::Conservative, text: "🛡 Conservative" });
        texts.push(TextEntry { language: lang, key: TextKey::ReadCurrent, text: "🔄 Read Current" });
        texts.push(TextEntry { language: lang, key: TextKey::ConfigLoaded, text: "Config Loaded" });
        texts.push(TextEntry { language: lang, key: TextKey::DetailedConfig, text: "Detailed Config" });
        texts.push(TextEntry { language: lang, key: TextKey::MaxUserPort, text: "Max User Port" });
        texts.push(TextEntry { language: lang, key: TextKey::TimeWaitDelay, text: "TIME_WAIT Delay (seconds)" });
        texts.push(TextEntry { language: lang, key: TextKey::DynamicPortStart, text: "Dynamic Port Start" });
        texts.push(TextEntry { language: lang, key: TextKey::Recommended, text: "Recommended" });
        texts.push(TextEntry { language: lang, key: TextKey::ApplyConfig, text: "✅ Apply Config" });
        texts.push(TextEntry { language: lang, key: TextKey::ConfigApplied, text: "Config applied! System reboot may be required." });
        texts.push(TextEntry { language: lang, key: TextKey::ApplyFailed, text: "Apply Failed" });
        texts.push(TextEntry { language: lang, key: TextKey::RebootRequired, text: "⚠️ System reboot required after changes" });

        // Language
        texts.push(TextEntry { language: lang, key: TextKey::LanguageLabel, text: "🌐 Language" });
        texts.push(TextEntry { language: lang, key: TextKey::LanguageChanged, text: "Language Changed" });

        // Help
        texts.push(TextEntry { language: lang, key: TextKey::Help, text: "❓ Help" });
        texts.push(TextEntry { language: lang, key: TextKey::HelpTitle, text: "📖 User Guide" });
        texts.push(TextEntry { language: lang, key: TextKey::HelpAbout, text: "About" });
        texts.push(TextEntry { language: lang, key: TextKey::HelpAboutDesc, text: "Smart TCP Manager is a cross-platform TCP connection management and optimization tool.\nSupports Windows, macOS and Linux. Monitor network connections in real-time,\nidentify potential issues, and optimize TCP parameters for better performance." });
        texts.push(TextEntry { language: lang, key: TextKey::HelpFeatures, text: "📋 Features" });
        texts.push(TextEntry { language: lang, key: TextKey::HelpDashboard, text: "📊 Dashboard" });
        texts.push(TextEntry { language: lang, key: TextKey::HelpDashboardDesc, text: "Overview of system TCP connections:\n  • Total connections, available ports, port usage\n  • Connection distribution by state (ESTABLISHED, TIME_WAIT, etc.)\n  • Top 5 processes with most connections and health scores" });
        texts.push(TextEntry { language: lang, key: TextKey::HelpProcesses, text: "📋 Process List" });
        texts.push(TextEntry { language: lang, key: TextKey::HelpProcessesDesc, text: "Detailed connection info for each process:\n  • Process name, PID, connection counts by state\n  • Health score (0-100, higher is better)\n  • Click 'Add Policy' to choose a template:\n    - 📊 Default: General purpose\n    - 🚀 High Performance: Games/Downloaders\n    - 🕷️ Crawler: Aggressively clean CLOSE_WAIT\n    - 🖥️ Server: High concurrency services\n    - 🔒 Restricted: Limit connections" });
        texts.push(TextEntry { language: lang, key: TextKey::HelpPolicies, text: "📜 Policies" });
        texts.push(TextEntry { language: lang, key: TextKey::HelpPoliciesDesc, text: "Configure per-application optimization rules:\n  • TIME_WAIT threshold: recommended 100-500\n  • CLOSE_WAIT threshold: recommended 20-100 (accumulation indicates leak)\n  • Max connections: limit connections per process\n  • Threshold action: alert, auto-optimize, or ignore\n\n💡 For crawlers/scrapers, use the '🕷️ Crawler' template to aggressively clean CLOSE_WAIT" });
        texts.push(TextEntry { language: lang, key: TextKey::HelpSettingsHelp, text: "⚙️ Settings" });
        texts.push(TextEntry { language: lang, key: TextKey::HelpSettingsDesc, text: "Adjust OS-level TCP parameters (requires admin):\n  • Max user ports: default 5000, recommended 32768-65534\n  • TIME_WAIT delay: default 120s, recommended 30-60s\n  • Dynamic port start: default 49152, adjust as needed" });
        texts.push(TextEntry { language: lang, key: TextKey::HelpTcpStates, text: "🔍 TCP States Explained" });
        texts.push(TextEntry { language: lang, key: TextKey::HelpTcpStatesDesc, text: "• ESTABLISHED (green): Active connections\n• TIME_WAIT (yellow): Waiting to close, too many will exhaust ports\n• CLOSE_WAIT (red): Peer closed, waiting for local close - accumulation indicates bug\n• LISTEN (blue): Listening ports waiting for connections\n• FIN_WAIT/LAST_ACK: Connections being closed" });
        texts.push(TextEntry { language: lang, key: TextKey::HelpTroubleshooting, text: "🛠 Troubleshooting" });
        texts.push(TextEntry { language: lang, key: TextKey::HelpTroubleshootingDesc, text: "Q: Port usage too high?\nA: Increase max user ports, reduce TIME_WAIT delay\n\nQ: Process has many CLOSE_WAIT?\nA: This is a program bug. Restart the process or contact developer\n\nQ: Settings don't take effect?\nA: Some settings require system reboot" });
        texts.push(TextEntry { language: lang, key: TextKey::HelpVersion, text: "Version" });
    }
}

} // verus!
