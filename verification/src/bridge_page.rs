//! The page on which an operator sets up and watches bridge routes.

use vstd::prelude::*;

verus! {

/// The page itself.
pub const INDEX_HTML: &'static str = r#"<!doctype html>
<html lang="en">
<head>
  <meta charset="utf-8">
  <meta name="viewport" content="width=device-width, initial-scale=1">
  <title>RedLine Bridge</title>
  <link rel="stylesheet" href="/style.css">
</head>
<body>
  <header class="topbar">
    <div><strong>Bridge App</strong><span id="summary"></span></div>
    <div class="actions"><button id="refresh" type="button">Refresh</button><button id="start-all" type="button">Start Enabled</button><button id="stop-all" type="button">Stop All</button></div>
  </header>
  <main>
    <section class="panel connection-panel">
      <h1>Connection</h1>
      <p class="muted">Use one server host for standard RedLine deployments. Custom ports and URLs stay in Advanced.</p>
      <div class="grid">
        <label>Server Host<input id="server-host" autocomplete="off" placeholder="192.168.1.10"></label>
        <label class="check"><input id="advanced-endpoints" type="checkbox"> Advanced endpoints</label>
        <label>Audio Address<input id="server" autocomplete="off" placeholder="192.168.1.10:40000"></label>
        <label>Control WebSocket<input id="control" autocomplete="off" placeholder="ws://192.168.1.10:40001"></label>
        <label>Admin URL<input id="admin" autocomplete="off" placeholder="http://192.168.1.10:40002"></label>
      </div>
      <p id="connection-summary" class="hint"></p>
    </section>
    <section class="panel">
      <h1>Routes</h1>
      <p id="message" class="muted">Create one route per vMix bus, PA output, program input, or recorder feed.</p>
      <div id="routes"></div>
      <div class="actions"><button id="add-route" type="button">Add Route</button><button id="save" class="primary" type="button">Save Configuration</button></div>
    </section>
  </main>
  <script src="/app.js"></script>
</body>
</html>"#;

/// How the page looks.
pub const STYLE_CSS: &'static str = r#":root{font-family:Inter,ui-sans-serif,system-ui,-apple-system,BlinkMacSystemFont,"Segoe UI",sans-serif;color:#17202b;background:#f4f6f8;--line:#d7dee7;--muted:#637083;--blue:#2166d1;--green:#137a45;--red:#b42318}
body{margin:0}.topbar{position:sticky;top:0;z-index:5;display:flex;align-items:center;justify-content:space-between;gap:16px;background:#182331;color:#fff;padding:13px 18px}.topbar div:first-child{display:grid;gap:2px}.topbar span{color:#ced6e0;font-size:12px}
main{max-width:1480px;margin:0 auto;padding:16px}.panel,.route{background:#fff;border:1px solid var(--line);border-radius:8px;padding:14px}.panel h1{margin:0 0 4px}.muted{color:var(--muted)}.ok{color:var(--green)}.error{color:var(--red)}
.actions{display:flex;gap:8px;align-items:center;flex-wrap:wrap}button{border:1px solid #b8c3d0;background:#fff;border-radius:6px;padding:7px 10px;cursor:pointer}button.primary{background:var(--blue);border-color:var(--blue);color:#fff}button.danger{border-color:#f2b8b5;color:var(--red)}
#routes{display:grid;gap:12px;margin:14px 0}.route-head{display:flex;align-items:center;justify-content:space-between;gap:10px;margin-bottom:10px}.route-head h2{margin:0;font-size:17px}.badge{display:inline-flex;border-radius:999px;padding:2px 8px;background:#e9f7ef;color:#146c43;font-size:12px;font-weight:700}.badge.off{background:#edf1f5;color:#566576}.badge.err{background:#fee4e2;color:#912018}
.grid{display:grid;grid-template-columns:repeat(auto-fit,minmax(180px,1fr));gap:10px}label,.field{display:grid;gap:4px;font-weight:650;font-size:13px}input,select{border:1px solid #b8c3d0;border-radius:6px;padding:7px;min-width:0;background:#fff}.check{display:flex;gap:8px;align-items:center}.wide{grid-column:1/-1}.hint{font-size:12px;color:var(--muted)}
.multi{position:relative}.multi-button{width:100%;min-height:34px;text-align:left;overflow:hidden;text-overflow:ellipsis;white-space:nowrap}.multi-menu{display:none;position:absolute;z-index:20;top:100%;left:0;right:0;max-height:260px;overflow:auto;background:#fff;border:1px solid #b8c3d0;border-radius:6px;box-shadow:0 10px 24px rgba(20,30,45,.14);padding:6px;margin-top:4px}.multi.open .multi-menu{display:grid;gap:2px}.multi-menu label{display:flex;align-items:center;gap:8px;padding:5px;border-radius:4px;font-weight:500}.multi-menu label:hover{background:#f2f5f8}
@media(max-width:800px){.topbar{display:grid}.route-head{display:grid}.grid{grid-template-columns:1fr}}"#;

/// What the page does.
pub const APP_JS: &'static str = r#"const $ = id => document.getElementById(id);
let state = null;
function esc(value){return String(value ?? '').replace(/[&<>"']/g,ch=>({'&':'&amp;','<':'&lt;','>':'&gt;','"':'&quot;',"'":'&#39;'}[ch]));}
const DEFAULT_HOST='127.0.0.1',AUDIO_PORT=40000,CONTROL_PORT=40001,ADMIN_PORT=40002;
function normalizeHost(host){return String(host||'').trim().replace(/^\[(.*)\]$/,'$1');}
function hostForUrl(host){const normalized=normalizeHost(host);return normalized.includes(':')?`[${normalized}]`:normalized;}
function audioForHost(host){const normalized=normalizeHost(host)||DEFAULT_HOST;return `${hostForUrl(normalized)}:${AUDIO_PORT}`;}
function controlForHost(host){const normalized=normalizeHost(host)||DEFAULT_HOST;return `ws://${hostForUrl(normalized)}:${CONTROL_PORT}`;}
function adminForHost(host){const normalized=normalizeHost(host)||DEFAULT_HOST;return `http://${hostForUrl(normalized)}:${ADMIN_PORT}`;}
function syncConnectionFields(){const advanced=$('advanced-endpoints').checked;for(const id of ['server','control','admin']){$(id).disabled=!advanced;}if(!advanced){const host=$('server-host').value.trim()||DEFAULT_HOST;$('server').value=audioForHost(host);$('control').value=controlForHost(host);$('admin').value=adminForHost(host);}$('connection-summary').textContent=`audio ${$('server').value} | control ${$('control').value} | admin ${$('admin').value || adminForHost($('server-host').value)}`;}
function bindConnection(){const config=state.config||{};$('server-host').value=config.server_host||DEFAULT_HOST;$('advanced-endpoints').checked=!!config.advanced_endpoints;$('server').value=config.server||audioForHost($('server-host').value);$('control').value=config.control||controlForHost($('server-host').value);$('admin').value=config.admin||adminForHost($('server-host').value);$('server-host').oninput=syncConnectionFields;$('advanced-endpoints').onchange=syncConnectionFields;syncConnectionFields();}
function routeStatus(id){return (state.routes || []).find(route=>route.id===id) || {};}
function setMessage(text, kind='muted'){$('message').className=kind;$('message').textContent=text;}
async function api(path, opts={}){const res=await fetch('/api'+path,{headers:{'content-type':'application/json'},...opts});if(!res.ok){let msg=res.statusText;try{msg=(await res.json()).error||msg;}catch{}throw new Error(msg);}return res.json();}
function option(value,label,selected=false){return `<option value="${esc(value)}" ${selected?'selected':''}>${esc(label)}</option>`;}
function deviceSelect(field,label,devices,current,placeholder){let values=[...(devices||[])];if(current&&!values.includes(current)){values.unshift(current);}const opts=[option('',`System default ${placeholder}`,!current),...values.map(name=>option(name,name,name===current))].join('');return `<label>${esc(label)}<select data-field="${field}" data-device-select="true">${opts}</select></label>`;}
function ndiSourceDatalist(){return `<datalist id="ndi-source-options">${(state.ndi_sources||[]).map(name=>`<option value="${esc(name)}"></option>`).join('')}</datalist>`;}
function channelLabel(channel){return channel.name ? `${channel.id} - ${channel.name}` : `Channel ${channel.id}`;}
function channelsFor(selected){const byId=new Map((state.channels||[]).map(ch=>[Number(ch.id),ch]));for(const id of selected||[]){if(!byId.has(Number(id))){byId.set(Number(id),{id:Number(id),name:`Channel ${id}`});}}return [...byId.values()].sort((a,b)=>Number(a.id)-Number(b.id));}
function channelDropdown(field,label,selected){const picked=new Set((selected||[]).map(Number));const checks=channelsFor(selected).map(ch=>`<label><input type="checkbox" value="${ch.id}" ${picked.has(Number(ch.id))?'checked':''}> ${esc(channelLabel(ch))}</label>`).join('');return `<div class="field"><span>${esc(label)}</span><div class="multi" data-field="${field}" data-channel-dropdown="true"><button class="multi-button" type="button"></button><div class="multi-menu">${checks}</div></div><span class="hint">Select one or more configured server channels.</span></div>`;}
function selectedChannels(card,field){return [...card.querySelectorAll(`[data-field="${field}"] input:checked`)].map(input=>Number(input.value)).filter(value=>Number.isInteger(value)&&value>=0);}
function channelSummary(values){if(!values.length){return 'No channels selected';}const byId=new Map((state.channels||[]).map(ch=>[Number(ch.id),ch]));return values.map(id=>channelLabel(byId.get(Number(id))||{id,name:''})).join(', ');}
function refreshChannelButtons(scope=document){scope.querySelectorAll('[data-channel-dropdown]').forEach(dropdown=>{const values=[...dropdown.querySelectorAll('input:checked')].map(input=>Number(input.value));dropdown.querySelector('.multi-button').textContent=channelSummary(values);});}
function setFieldVisible(card,field,visible){const input=card.querySelector(`[data-field="${field}"]`);const wrap=input?.closest('label,.field');if(wrap)wrap.style.display=visible?'':'none';}
function updateRouteVisibility(card){const field=name=>card.querySelector(`[data-field="${name}"]`);const mode=field('mode').value;const inputKind=field('input_kind').value;const outputKind=field('output_kind').value;const captures=mode==='input'||mode==='duplex';const plays=mode==='output'||mode==='duplex';setFieldVisible(card,'input_kind',captures);setFieldVisible(card,'output_kind',plays);setFieldVisible(card,'tx_channels',captures);setFieldVisible(card,'listen_channels',plays);setFieldVisible(card,'input_device',captures&&inputKind==='audio_device');setFieldVisible(card,'ndi_source',captures&&inputKind==='ndi_source');setFieldVisible(card,'output_device',plays&&outputKind==='audio_device');setFieldVisible(card,'ndi_output_name',plays&&outputKind==='ndi_output');setFieldVisible(card,'ndi_groups',(captures&&inputKind==='ndi_source')||(plays&&outputKind==='ndi_output'));setFieldVisible(card,'output_gain',plays);setFieldVisible(card,'input_gain',captures);setFieldVisible(card,'stereo',plays);}
function sourceUrlHtml(status){if(!status.source_url){return '';}return `<label class="wide">vMix Source URL<input readonly value="${esc(status.source_url)}" onclick="this.select()"></label>`;}
function routeTelemetryHtml(status){const parts=[];if(status.runtime)parts.push(status.runtime);if(status.audio_level!=null)parts.push(`level ${Math.round(Number(status.audio_level)*100)}%`);if(status.audio_frames)parts.push(`${status.audio_frames} frames`);if(status.underflows)parts.push(`${status.underflows} underflows`);if(status.drops)parts.push(`${status.drops} drops`);if(status.last_audio_ms_ago!=null)parts.push(`last audio ${status.last_audio_ms_ago} ms ago`);if(status.stale)parts.push('stale');return parts.length?`<p class="hint wide">${esc(parts.join(' | '))}</p>`:'';}
function routeHtml(route,index){const status=routeStatus(route.id);const running=!!status.running;return `<div class="route" data-index="${index}">
  <div class="route-head"><h2>${esc(route.name || route.id || 'Bridge Route')} ${running?'<span class="badge">running</span>':status.exit?`<span class="badge err">${esc(status.exit)}</span>`:'<span class="badge off">stopped</span>'}</h2><div class="actions"><button data-start="${index}" type="button">Start</button><button data-stop="${index}" type="button">Stop</button><button data-remove="${index}" class="danger" type="button">Remove</button></div></div>
  <div class="grid">
    <label>ID<input data-field="id" value="${esc(route.id)}"></label>
    <label>Name<input data-field="name" value="${esc(route.name)}"></label>
    <label>User ID<input data-field="user_id" type="number" min="1" max="65535" value="${route.user_id || 90}"></label>
    <label>Mode<select data-field="mode"><option value="input">Input</option><option value="output">Output</option><option value="duplex">Duplex</option></select></label>
    <label>Input Type<select data-field="input_kind"><option value="audio_device">Audio Device</option><option value="ndi_source">NDI Source</option></select></label>
    <label>Output Type<select data-field="output_kind"><option value="audio_device">Audio Device</option><option value="vmix_browser_source">vMix Browser Source</option><option value="ndi_output">NDI Output</option></select></label>
    ${channelDropdown('tx_channels','TX Channels',route.tx_channels)}
    ${channelDropdown('listen_channels','Listen Channels',route.listen_channels)}
    ${deviceSelect('input_device','Input Device',state.input_devices,route.input_device,'input')}
    ${deviceSelect('output_device','Output Device',state.output_devices,route.output_device,'output')}
    <label>NDI Source<input data-field="ndi_source" list="ndi-source-options" value="${esc(route.ndi_source || '')}" placeholder="Discovered NDI source name"></label>
    <label>NDI Output Name<input data-field="ndi_output_name" value="${esc(route.ndi_output_name || '')}" placeholder="RedLine Program"></label>
    <label>NDI Groups<input data-field="ndi_groups" value="${esc(route.ndi_groups || '')}" placeholder="Optional"></label>
    ${sourceUrlHtml(status)}
    ${routeTelemetryHtml(status)}
    <label>Codec<select data-field="codec"><option value="pcm16">PCM16</option><option value="pcm24">PCM24</option><option value="pcm48">PCM48</option><option value="opus">Opus</option></select></label>
    <label>Opus Profile<select data-field="opus_profile"><option value="speech_16_low">Speech 16 Low</option><option value="speech_24_standard">Speech 24 Standard</option><option value="speech_48_high">Speech 48 High</option><option value="music_48">Music 48</option></select></label>
    <label>Input Gain<input data-field="input_gain" type="number" min="0" max="2" step="0.05" value="${route.input_gain ?? 1}"></label>
    <label>Output Gain<input data-field="output_gain" type="number" min="0" max="2" step="0.05" value="${route.output_gain ?? 1}"></label>
    <label class="check"><input data-field="stereo" type="checkbox" ${route.stereo ? 'checked' : ''}> Stereo receive</label>
    <label class="check"><input data-field="enabled" type="checkbox" ${route.enabled !== false ? 'checked' : ''}> Start with Start Enabled</label>
    <label class="wide">Note<input data-field="note" value="${esc(route.note || '')}" placeholder="vMix bus A into Program"></label>
    ${status.warning ? `<p class="hint wide">${esc(status.warning)}</p>` : ''}
  </div>
</div>`;}
function bindRoutes(){document.querySelectorAll('.route').forEach(card=>{const index=Number(card.dataset.index);const route=state.config.routes[index];card.querySelector('[data-field="mode"]').value=route.mode||'duplex';card.querySelector('[data-field="input_kind"]').value=route.input_kind||'audio_device';card.querySelector('[data-field="output_kind"]').value=route.output_kind||'audio_device';card.querySelector('[data-field="codec"]').value=route.codec||'pcm48';card.querySelector('[data-field="opus_profile"]').value=route.opus_profile||'speech_48_high';['mode','input_kind','output_kind'].forEach(name=>card.querySelector(`[data-field="${name}"]`).onchange=()=>updateRouteVisibility(card));updateRouteVisibility(card);});document.querySelectorAll('[data-start]').forEach(button=>button.onclick=()=>startRoute(Number(button.dataset.start)));document.querySelectorAll('[data-stop]').forEach(button=>button.onclick=()=>stopRoute(Number(button.dataset.stop)));document.querySelectorAll('[data-remove]').forEach(button=>button.onclick=()=>removeRoute(Number(button.dataset.remove)));document.querySelectorAll('.multi-button').forEach(button=>button.onclick=event=>{event.stopPropagation();const dropdown=button.closest('.multi');document.querySelectorAll('.multi.open').forEach(open=>{if(open!==dropdown)open.classList.remove('open');});dropdown.classList.toggle('open');});document.querySelectorAll('[data-channel-dropdown] input').forEach(input=>input.onchange=()=>refreshChannelButtons(input.closest('.route')));refreshChannelButtons();}
function render(){const running=(state.routes||[]).filter(route=>route.running).length;const warnings=(state.discovery_warnings||[]).length?` | ${(state.discovery_warnings||[]).length} discovery warning(s)`:'';const ndi=state.ndi_available?` | NDI ready (${(state.ndi_sources||[]).length} source(s))`:' | NDI unavailable';$('summary').textContent=`${running}/${(state.config.routes||[]).length} routes running | bridge ${state.bridge_bin}${ndi}${warnings}`;$('routes').innerHTML=ndiSourceDatalist()+((state.config.routes||[]).map(routeHtml).join('')||'<p class="muted">No routes configured.</p>');if((state.discovery_warnings||[]).length){setMessage(state.discovery_warnings.join(' | '),'muted');}bindConnection();bindRoutes();}
function collect(){syncConnectionFields();const routes=[...document.querySelectorAll('.route')].map(card=>{const field=name=>card.querySelector(`[data-field="${name}"]`);return {id:field('id').value.trim(),name:field('name').value.trim(),user_id:Number(field('user_id').value),mode:field('mode').value,input_kind:field('input_kind').value,output_kind:field('output_kind').value,tx_channels:selectedChannels(card,'tx_channels'),listen_channels:selectedChannels(card,'listen_channels'),input_device:field('input_device').value.trim()||null,output_device:field('output_device').value.trim()||null,ndi_source:field('ndi_source').value.trim()||null,ndi_output_name:field('ndi_output_name').value.trim()||null,ndi_groups:field('ndi_groups').value.trim()||null,codec:field('codec').value,opus_profile:field('opus_profile').value,input_gain:Number(field('input_gain').value)||1,output_gain:Number(field('output_gain').value)||1,stereo:field('stereo').checked,enabled:field('enabled').checked,note:field('note').value.trim()};});return {...state.config,server_host:normalizeHost($('server-host').value)||DEFAULT_HOST,server:$('server').value.trim(),control:$('control').value.trim(),admin:$('admin').value.trim()||null,advanced_endpoints:$('advanced-endpoints').checked,routes};}
async function load(){state=await api('/state');render();}
async function save(){try{state.config=collect();await api('/config',{method:'PUT',body:JSON.stringify(state.config)});setMessage('Configuration saved.','ok');await load();}catch(err){setMessage(err.message,'error');}}
async function startRoute(index){try{await save();await api(`/routes/${encodeURIComponent(state.config.routes[index].id)}/start`,{method:'POST'});await load();}catch(err){setMessage(err.message,'error');}}
async function stopRoute(index){try{const id=state.config.routes[index].id;await api(`/routes/${encodeURIComponent(id)}/stop`,{method:'POST'});await load();}catch(err){setMessage(err.message,'error');}}
function removeRoute(index){state.config=collect();state.config.routes.splice(index,1);render();setMessage('Route removed. Save configuration to persist.','muted');}
$('add-route').onclick=()=>{state.config=collect();const n=(state.config.routes||[]).length+1;state.config.routes.push({id:`route-${n}`,name:`Bridge Route ${n}`,user_id:90+n,mode:'input',input_kind:'audio_device',output_kind:'audio_device',tx_channels:[1],listen_channels:[],codec:'pcm48',opus_profile:'speech_48_high',input_gain:1,output_gain:1,enabled:true,note:''});render();};
$('save').onclick=save;$('refresh').onclick=load;$('start-all').onclick=async()=>{try{await save();await api('/routes/start-all',{method:'POST'});await load();}catch(err){setMessage(err.message,'error');}};$('stop-all').onclick=async()=>{try{await api('/routes/stop-all',{method:'POST'});await load();}catch(err){setMessage(err.message,'error');}};
document.addEventListener('click',()=>document.querySelectorAll('.multi.open').forEach(dropdown=>dropdown.classList.remove('open')));
load().catch(err=>setMessage(err.message,'error'));"#;

} // verus!
